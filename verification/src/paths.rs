//! File system paths, as text.

use vstd::prelude::*;

use crate::text::chars_of;

verus! {

/// A path, carried along as it is.
#[verifier::external_type_specification]
#[verifier::external_body]
pub struct ExPathBuf(std::path::PathBuf);

/// `PathBuf::clone`: the same path.
pub assume_specification[ <std::path::PathBuf as Clone>::clone ](path: &std::path::PathBuf) -> (r:
    std::path::PathBuf)
    ensures
        r == *path,
;

/// One path seen from another, as Unix has it: an absolute path stands for
/// itself, and any other follows the base after a separator, which is added
/// unless the base is empty or ends in one.
pub open spec fn joined_path(base: Seq<char>, part: Seq<char>) -> Seq<char> {
    if part.len() > 0 && part[0] == '/' {
        part
    } else if base.len() == 0 || base.last() == '/' {
        base + part
    } else {
        base.push('/') + part
    }
}

/// What `std::path::Path::parent` makes of a path.
pub uninterp spec fn parent_path(path: Seq<char>) -> Option<Seq<char>>;

/// What `std::path::Path::file_name` makes of a path.
pub uninterp spec fn path_name(path: Seq<char>) -> Option<Seq<char>>;

/// The second path, seen from the first.
pub(crate) fn join_path(base: &str, part: &str) -> (r: String)
    ensures
        r@ == joined_path(base@, part@),
{
    let base_chars: Vec<char> = chars_of(base);
    let part_chars: Vec<char> = chars_of(part);
    if part_chars.len() > 0 && part_chars[0] == '/' {
        return part.to_owned();
    }
    let mut out: String = base.to_owned();
    if base_chars.len() > 0 && base_chars[base_chars.len() - 1] != '/' {
        out.push('/');
    }
    out.append(part);
    assert(out@ =~= joined_path(base@, part@));
    out
}

/// `std::path::Path::parent`: the path without its last component.
#[verifier::external_body]
pub(crate) fn parent_of(path: &str) -> (r: Option<String>)
    ensures
        crate::text::text_of(r) == parent_path(path@),
{
    std::path::Path::new(path).parent().map(|p| p.to_string_lossy().into_owned())
}

/// `std::path::Path::file_name`: the last component of the path.
#[verifier::external_body]
pub(crate) fn name_of(path: &str) -> (r: Option<String>)
    ensures
        crate::text::text_of(r) == path_name(path@),
{
    std::path::Path::new(path).file_name().map(|n| n.to_string_lossy().into_owned())
}

/// An absolute path stands for itself. Any other follows the base, whole, with
/// one separator in between and nothing else; a base that is empty or ends in a
/// separator needs none.
pub proof fn law_paths_are_joined_by_one_separator(base: Seq<char>, part: Seq<char>)
    ensures
        part.len() > 0 && part[0] == '/' ==> joined_path(base, part) == part,
        part.len() == 0 || part[0] != '/' ==> {
            let r = joined_path(base, part);
            &&& base.is_prefix_of(r)
            &&& part.is_suffix_of(r)
            &&& base.len() == 0 ==> r.len() == part.len()
            &&& base.len() > 0 && base.last() == '/' ==> r.len() == base.len() + part.len()
            &&& base.len() > 0 && base.last() != '/' ==> r.len() == base.len() + 1 + part.len()
                && r[base.len() as int] == '/'
        },
{
    let r = joined_path(base, part);
    if part.len() == 0 || part[0] != '/' {
        assert(r.take(base.len() as int) =~= base);
        assert(r.skip(r.len() - part.len()) =~= part);
    }
}

} // verus!
