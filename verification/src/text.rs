//! Text as a sequence of characters: the few operations on strings that the
//! rest of the library is built on.

use vstd::prelude::*;

verus! {

/// `String::push`: appends the character to the end of the string.
pub assume_specification[ String::push ](string: &mut String, c: char)
    ensures
        final(string)@ == old(string)@.push(c),
;

/// The characters with the Unicode property `White_Space`.
pub open spec fn whitespace(c: char) -> bool {
    ||| '\u{9}' <= c <= '\u{d}'
    ||| c == ' '
    ||| c == '\u{85}'
    ||| c == '\u{a0}'
    ||| c == '\u{1680}'
    ||| '\u{2000}' <= c <= '\u{200a}'
    ||| c == '\u{2028}'
    ||| c == '\u{2029}'
    ||| c == '\u{202f}'
    ||| c == '\u{205f}'
    ||| c == '\u{3000}'
}

/// The text without its leading white space.
pub open spec fn trimmed_start(s: Seq<char>) -> Seq<char>
    decreases s.len(),
{
    if s.len() > 0 && whitespace(s[0]) {
        trimmed_start(s.skip(1))
    } else {
        s
    }
}

/// The text without its trailing white space.
pub open spec fn trimmed_end(s: Seq<char>) -> Seq<char>
    decreases s.len(),
{
    if s.len() > 0 && whitespace(s.last()) {
        trimmed_end(s.drop_last())
    } else {
        s
    }
}

/// The text without the white space around it.
pub open spec fn trimmed(s: Seq<char>) -> Seq<char> {
    trimmed_end(trimmed_start(s))
}

/// An ASCII capital as its small letter; any other character as it is.
pub open spec fn small(c: char) -> char {
    if 'A' <= c <= 'Z' {
        (c as u32 + 32) as char
    } else {
        c
    }
}

/// The text with its ASCII capitals as small letters.
pub open spec fn lowered(s: Seq<char>) -> Seq<char> {
    s.map_values(|c: char| small(c))
}

/// The first place at or after `from` where `pattern` stands in `s`.
pub open spec fn found_from(s: Seq<char>, pattern: Seq<char>, from: int) -> Option<int>
    decreases s.len() + 1 - from,
{
    if from < 0 || from + pattern.len() > s.len() {
        None
    } else if s.subrange(from, from + pattern.len()) == pattern {
        Some(from)
    } else {
        found_from(s, pattern, from + 1)
    }
}

/// The first place where `pattern` stands in `s`.
pub open spec fn found(s: Seq<char>, pattern: Seq<char>) -> Option<int> {
    found_from(s, pattern, 0)
}

/// What stands before and after the first `separator`.
pub open spec fn halves(s: Seq<char>, separator: Seq<char>) -> Option<(Seq<char>, Seq<char>)> {
    match found(s, separator) {
        Some(i) => Some((s.take(i), s.skip(i + separator.len()))),
        None => None,
    }
}

/// A line that ended in a line feed, without the carriage return before it.
pub open spec fn without_return(s: Seq<char>) -> Seq<char> {
    if s.len() > 0 && s.last() == '\r' {
        s.drop_last()
    } else {
        s
    }
}

/// The lines of a text, without their ends: a line ends in a line feed, with or
/// without a carriage return before it, and the last one may go without.
pub open spec fn lines_of(s: Seq<char>) -> Seq<Seq<char>>
    decreases s.len(),
{
    if s.len() == 0 {
        seq![]
    } else {
        match found(s, seq!['\n']) {
            Some(i) => {
                if 0 <= i < s.len() {
                    seq![without_return(s.take(i))] + lines_of(s.skip(i + 1))
                } else {
                    seq![]
                }
            },
            None => seq![s],
        }
    }
}

/// The texts that a list of strings holds.
pub open spec fn texts(list: Seq<String>) -> Seq<Seq<char>> {
    list.map_values(|s: String| s@)
}

/// The text that an optional string holds.
pub open spec fn text_of(s: Option<String>) -> Option<Seq<char>> {
    match s {
        Some(s) => Some(s@),
        None => None,
    }
}

/// Whether a character is white space.
pub fn is_whitespace(c: char) -> (r: bool)
    ensures
        r == whitespace(c),
{
    ('\u{9}' <= c && c <= '\u{d}') || c == ' ' || c == '\u{85}' || c == '\u{a0}' || c == '\u{1680}'
        || ('\u{2000}' <= c && c <= '\u{200a}') || c == '\u{2028}' || c == '\u{2029}' || c
        == '\u{202f}' || c == '\u{205f}' || c == '\u{3000}'
}

/// The characters of a text.
pub fn chars_of(s: &str) -> (r: Vec<char>)
    ensures
        r@ == s@,
{
    let mut chars: Vec<char> = Vec::new();
    for c in it: s.chars()
        invariant
            chars@ == s@.take(it.index() as int),
            it.seq() == s@,
    {
        chars.push(c);
        assert(chars@ =~= s@.take(it.index() + 1));
    }
    assert(chars@ =~= s@);
    chars
}

/// The text without the white space around it.
pub fn trim(s: &str) -> (r: &str)
    ensures
        r@ == trimmed(s@),
{
    let chars: Vec<char> = chars_of(s);
    let mut from: usize = 0;
    assert(chars@.skip(0) =~= chars@);
    while from < chars.len() && is_whitespace(chars[from])
        invariant
            from <= chars@.len(),
            trimmed_start(chars@) == trimmed_start(chars@.skip(from as int)),
        decreases chars@.len() - from,
    {
        assert(chars@.skip(from as int).skip(1) =~= chars@.skip(from + 1));
        from += 1;
    }
    let mut to: usize = chars.len();
    assert(chars@.skip(from as int) =~= chars@.subrange(from as int, to as int));
    while from < to && is_whitespace(chars[to - 1])
        invariant
            from <= to <= chars@.len(),
            trimmed(chars@) == trimmed_end(chars@.subrange(from as int, to as int)),
        decreases to,
    {
        assert(chars@.subrange(from as int, to as int).drop_last() =~= chars@.subrange(
            from as int,
            to - 1,
        ));
        to -= 1;
    }
    s.substring_char(from, to)
}

/// Whether two texts are the same.
pub fn same(a: &str, b: &str) -> (r: bool)
    ensures
        r == (a@ == b@),
{
    let x: Vec<char> = chars_of(a);
    let y: Vec<char> = chars_of(b);
    if x.len() != y.len() {
        return false;
    }
    assert(x@.subrange(0, y@.len() as int) =~= x@);
    stands_at(&x, &y, 0)
}

/// Whether `pattern` stands in `s` at `at`.
fn stands_at(s: &Vec<char>, pattern: &Vec<char>, at: usize) -> (r: bool)
    requires
        at + pattern@.len() <= s@.len(),
    ensures
        r == (s@.subrange(at as int, at + pattern@.len()) == pattern@),
{
    let total: usize = s.len();
    let mut i: usize = 0;
    while i < pattern.len()
        invariant
            i <= pattern@.len(),
            at + pattern@.len() <= s@.len(),
            s@.len() == total,
            forall|j: int| 0 <= j < i ==> s@[at + j] == pattern@[j],
        decreases pattern@.len() - i,
    {
        if s[at + i] != pattern[i] {
            assert(s@.subrange(at as int, at + pattern@.len())[i as int] != pattern@[i as int]);
            return false;
        }
        i += 1;
    }
    assert(s@.subrange(at as int, at + pattern@.len()) =~= pattern@);
    true
}

/// Whether `s` begins with `prefix`.
pub fn starts_with(s: &str, prefix: &str) -> (r: bool)
    ensures
        r == prefix@.is_prefix_of(s@),
{
    let x: Vec<char> = chars_of(s);
    let y: Vec<char> = chars_of(prefix);
    if x.len() < y.len() {
        return false;
    }
    stands_at(&x, &y, 0)
}

/// Whether `s` ends with `suffix`.
pub fn ends_with(s: &str, suffix: &str) -> (r: bool)
    ensures
        r == suffix@.is_suffix_of(s@),
{
    let x: Vec<char> = chars_of(s);
    let y: Vec<char> = chars_of(suffix);
    if x.len() < y.len() {
        return false;
    }
    stands_at(&x, &y, x.len() - y.len())
}

/// The first place where `pattern` stands in `s`.
fn find(s: &Vec<char>, pattern: &Vec<char>) -> (r: Option<usize>)
    ensures
        match r {
            Some(i) => found(s@, pattern@) == Some(i as int) && i + pattern@.len() <= s@.len(),
            None => found(s@, pattern@) is None,
        },
{
    let mut from: usize = 0;
    while from <= s.len() && s.len() - from >= pattern.len()
        invariant
            from <= s@.len() + 1,
            from <= usize::MAX,
            found(s@, pattern@) == found_from(s@, pattern@, from as int),
        decreases s@.len() + 1 - from,
    {
        if stands_at(s, pattern, from) {
            return Some(from);
        }
        if from == s.len() {
            assert(found_from(s@, pattern@, from + 1) is None);
            return None;
        }
        from += 1;
    }
    None
}

/// Whether `pattern` stands anywhere in `s`.
pub fn contains(s: &str, pattern: &str) -> (r: bool)
    ensures
        r == (found(s@, pattern@) is Some),
{
    find(&chars_of(s), &chars_of(pattern)).is_some()
}

/// What stands before and after the first `separator`.
pub fn split_once<'a>(s: &'a str, separator: &str) -> (r: Option<(&'a str, &'a str)>)
    ensures
        match r {
            Some((before, after)) => halves(s@, separator@) == Some((before@, after@)),
            None => halves(s@, separator@) is None,
        },
{
    let chars: Vec<char> = chars_of(s);
    let pattern: Vec<char> = chars_of(separator);
    let total: usize = chars.len();
    match find(&chars, &pattern) {
        Some(i) => {
            let before: &'a str = s.substring_char(0, i);
            let after: &'a str = s.substring_char(i + pattern.len(), total);
            assert(before@ =~= s@.take(i as int));
            assert(after@ =~= s@.skip(i + separator@.len()));
            Some((before, after))
        },
        None => None,
    }
}

/// The texts that a list of string slices holds.
pub open spec fn slices(list: Seq<&str>) -> Seq<Seq<char>> {
    list.map_values(|s: &str| s@)
}

/// The lines of a text, without their ends.
pub fn lines<'a>(s: &'a str) -> (r: Vec<&'a str>)
    ensures
        slices(r@) == lines_of(s@),
{
    let feed: Vec<char> = vec!['\n'];
    assert(feed@ =~= seq!['\n']);
    let chars: Vec<char> = chars_of(s);
    let total: usize = chars.len();
    let mut out: Vec<&'a str> = Vec::new();
    let mut from: usize = 0;
    assert(s@.skip(0) =~= s@);
    while from < total
        invariant
            total == s@.len(),
            from <= total,
            feed@ == seq!['\n'],
            slices(out@) + lines_of(s@.skip(from as int)) == lines_of(s@),
        decreases total - from,
    {
        let rest: &'a str = s.substring_char(from, total);
        assert(rest@ =~= s@.skip(from as int));
        let rest_chars: Vec<char> = chars_of(rest);
        let ghost before = slices(out@);
        match find(&rest_chars, &feed) {
            Some(i) => {
                let end: usize = if i > 0 && rest_chars[i - 1] == '\r' {
                    i - 1
                } else {
                    i
                };
                let line: &'a str = rest.substring_char(0, end);
                assert(line@ =~= without_return(rest@.take(i as int)));
                out.push(line);
                assert(slices(out@) =~= before.push(line@));
                assert(rest@.skip(i + 1) =~= s@.skip(from + i + 1));
                assert(lines_of(rest@) =~= seq![line@] + lines_of(s@.skip(from + i + 1)));
                assert(slices(out@) + lines_of(s@.skip(from + i + 1)) =~= before + lines_of(rest@));
                from = from + i + 1;
            },
            None => {
                out.push(rest);
                assert(slices(out@) =~= before + lines_of(rest@));
                return out;
            },
        }
    }
    assert(slices(out@) =~= lines_of(s@));
    out
}

/// One text after another.
pub fn joined(first: &str, second: &str) -> (r: String)
    ensures
        r@ == first@ + second@,
{
    let mut out: String = String::new();
    out.append(first);
    out.append(second);
    assert(out@ =~= first@ + second@);
    out
}

/// What `String::from_utf8_lossy` reads in bytes.
pub uninterp spec fn lossy_text(bytes: Seq<u8>) -> Seq<char>;

/// `String::from_utf8_lossy`: the text that the bytes hold, with replacement
/// characters where they hold none.
#[verifier::external_body]
pub(crate) fn read_lossy(bytes: &[u8]) -> (r: String)
    ensures
        r@ == lossy_text(bytes@),
{
    String::from_utf8_lossy(bytes).into_owned()
}

/// The text with its ASCII capitals as small letters.
pub fn to_lower(s: &str) -> (r: String)
    ensures
        r@ == lowered(s@),
{
    let mut out: String = String::new();
    for c in it: s.chars()
        invariant
            out@ == lowered(s@.take(it.index() as int)),
            it.seq() == s@,
    {
        let small_c: char = if 'A' <= c && c <= 'Z' {
            (c as u8 + 32) as char
        } else {
            c
        };
        out.push(small_c);
        assert(out@ =~= lowered(s@.take(it.index() + 1)));
    }
    assert(out@ =~= lowered(s@));
    out
}

/// Trimming takes away white space at both ends and nothing else: what is left
/// stands in the text between white space only, and neither begins nor ends
/// with any.
pub proof fn law_trimming_takes_white_space_only(s: Seq<char>)
    ensures
        ({
            let t = trimmed(s);
            &&& t.len() > 0 ==> !whitespace(t[0]) && !whitespace(t.last())
            &&& exists|from: int|
                0 <= from && from + t.len() <= s.len() && #[trigger] s.subrange(
                    from,
                    from + t.len(),
                ) == t && (forall|i: int| 0 <= i < from ==> whitespace(#[trigger] s[i])) && (
                forall|i: int| from + t.len() <= i < s.len() ==> whitespace(#[trigger] s[i]))
        }),
{
    let from = s.len() - trimmed_start(s).len();
    lemma_trimmed_start(s);
    lemma_trimmed_end(trimmed_start(s));
    let t = trimmed(s);
    assert(s.subrange(from, from + t.len()) =~= t);
    assert forall|i: int| from + t.len() <= i < s.len() implies whitespace(#[trigger] s[i]) by {
        assert(trimmed_start(s)[i - from] == s[i]);
    }
}

proof fn lemma_trimmed_start(s: Seq<char>)
    ensures
        trimmed_start(s).len() <= s.len(),
        trimmed_start(s) == s.skip(s.len() - trimmed_start(s).len()),
        forall|i: int|
            0 <= i < s.len() - trimmed_start(s).len() ==> whitespace(#[trigger] s[i]),
        trimmed_start(s).len() > 0 ==> !whitespace(trimmed_start(s)[0]),
    decreases s.len(),
{
    if s.len() > 0 && whitespace(s[0]) {
        let rest = s.skip(1);
        lemma_trimmed_start(rest);
        assert(trimmed_start(s) =~= s.skip(s.len() - trimmed_start(s).len()));
        assert forall|i: int| 0 <= i < s.len() - trimmed_start(s).len() implies whitespace(
            #[trigger] s[i],
        ) by {
            if i > 0 {
                assert(rest[i - 1] == s[i]);
            }
        }
    } else {
        assert(s.skip(0) =~= s);
    }
}

proof fn lemma_trimmed_end(s: Seq<char>)
    ensures
        trimmed_end(s).len() <= s.len(),
        trimmed_end(s) == s.take(trimmed_end(s).len() as int),
        forall|i: int| trimmed_end(s).len() <= i < s.len() ==> whitespace(#[trigger] s[i]),
        trimmed_end(s).len() > 0 ==> !whitespace(trimmed_end(s).last()),
    decreases s.len(),
{
    if s.len() > 0 && whitespace(s.last()) {
        let rest = s.drop_last();
        lemma_trimmed_end(rest);
        assert(trimmed_end(s) =~= s.take(trimmed_end(s).len() as int));
        assert forall|i: int| trimmed_end(s).len() <= i < s.len() implies whitespace(
            #[trigger] s[i],
        ) by {
            if i < rest.len() {
                assert(rest[i] == s[i]);
            }
        }
    } else {
        assert(s.take(s.len() as int) =~= s);
    }
}

/// Lowering changes the ASCII capitals, each to its own small letter, and no
/// other character.
pub proof fn law_lowering_changes_capitals_only(s: Seq<char>)
    ensures
        lowered(s).len() == s.len(),
        forall|i: int|
            0 <= i < s.len() ==> if 'A' <= s[i] && s[i] <= 'Z' {
                (#[trigger] lowered(s)[i]) as u32 == s[i] as u32 + 32
            } else {
                lowered(s)[i] == s[i]
            },
{
}

/// A search finds the first place at which the pattern stands, and none only
/// where the pattern stands nowhere.
pub proof fn law_first_place_is_found(s: Seq<char>, pattern: Seq<char>)
    ensures
        found(s, pattern) matches Some(i) ==> {
            &&& 0 <= i && i + pattern.len() <= s.len()
            &&& s.subrange(i, i + pattern.len()) == pattern
            &&& forall|j: int| 0 <= j < i ==> #[trigger] s.subrange(j, j + pattern.len()) != pattern
        },
        found(s, pattern) is None ==> forall|j: int|
            0 <= j && j + pattern.len() <= s.len() ==> #[trigger] s.subrange(j, j + pattern.len())
                != pattern,
{
    lemma_found_from(s, pattern, 0);
}

proof fn lemma_found_from(s: Seq<char>, pattern: Seq<char>, from: int)
    requires
        0 <= from,
    ensures
        found_from(s, pattern, from) matches Some(i) ==> {
            &&& from <= i && i + pattern.len() <= s.len()
            &&& s.subrange(i, i + pattern.len()) == pattern
            &&& forall|j: int|
                from <= j < i ==> #[trigger] s.subrange(j, j + pattern.len()) != pattern
        },
        found_from(s, pattern, from) is None ==> forall|j: int|
            from <= j && j + pattern.len() <= s.len() ==> #[trigger] s.subrange(
                j,
                j + pattern.len(),
            ) != pattern,
    decreases s.len() + 1 - from,
{
    if from + pattern.len() <= s.len() && s.subrange(from, from + pattern.len()) != pattern {
        lemma_found_from(s, pattern, from + 1);
    }
}

/// A text that is split is what stands before, the separator and what stands
/// after, and the separator stands nowhere earlier; a text that is not split
/// has no separator in it.
pub proof fn law_halves_make_the_whole(s: Seq<char>, separator: Seq<char>)
    ensures
        halves(s, separator) matches Some((before, after)) ==> {
            &&& s == before + separator + after
            &&& forall|j: int|
                0 <= j < before.len() ==> #[trigger] s.subrange(j, j + separator.len()) != separator
        },
        halves(s, separator) is None ==> forall|j: int|
            0 <= j && j + separator.len() <= s.len() ==> #[trigger] s.subrange(
                j,
                j + separator.len(),
            ) != separator,
{
    law_first_place_is_found(s, separator);
    if let Some(i) = found(s, separator) {
        assert(s =~= s.take(i) + s.subrange(i, i + separator.len()) + s.skip(
            i + separator.len(),
        ));
    }
}

/// Lines come out one after another, as they were put in: a line feed ends a
/// line, a carriage return just before it goes with it, and the last line may
/// go without a line feed.
pub proof fn law_lines_come_out_as_put_in(line: Seq<char>, rest: Seq<char>)
    requires
        !line.contains('\n'),
    ensures
        line.len() > 0 ==> lines_of(line) == seq![line],
        lines_of(Seq::<char>::empty()) == Seq::<Seq<char>>::empty(),
        line.len() == 0 || line.last() != '\r' ==> lines_of(line + seq!['\n'] + rest) == seq![line]
            + lines_of(rest),
        lines_of(line + seq!['\r', '\n'] + rest) == seq![line] + lines_of(rest),
{
    let feed = seq!['\n'];
    law_first_place_is_found(line, feed);
    if let Some(i) = found(line, feed) {
        assert(line.subrange(i, i + 1)[0] == '\n');
        assert(line[i] == '\n');
    }
    lemma_first_line(line, rest);
    let with_return = line.push('\r');
    assert forall|i: int| 0 <= i < with_return.len() implies #[trigger] with_return[i] != '\n' by {
        if i < line.len() {
            assert(line.contains(line[i]));
        }
    }
    lemma_first_line(with_return, rest);
    assert(with_return.drop_last() =~= line);
    assert(with_return + feed + rest =~= line + seq!['\r', '\n'] + rest);
}

proof fn lemma_first_line(line: Seq<char>, rest: Seq<char>)
    requires
        !line.contains('\n'),
    ensures
        lines_of(line + seq!['\n'] + rest) == seq![without_return(line)] + lines_of(rest),
{
    let feed = seq!['\n'];
    let s = line + feed + rest;
    law_first_place_is_found(s, feed);
    let at = line.len() as int;
    assert(s.subrange(at, at + 1) =~= feed);
    let i = found(s, feed)->0;
    assert(found(s, feed) is Some);
    if i < at {
        assert(s.subrange(i, i + 1)[0] == '\n');
        assert(line[i] == '\n');
    }
    assert(i == at);
    assert(s.take(at) =~= line);
    assert(s.skip(at + 1) =~= rest);
}

/// The texts of a list are those of its strings, one for one, and so are those of
/// a list of slices.
pub proof fn law_texts_are_those_of_the_strings(list: Seq<String>, parts: Seq<&str>)
    ensures
        texts(list).len() == list.len(),
        forall|i: int| 0 <= i < list.len() ==> #[trigger] texts(list)[i] == list[i]@,
        slices(parts).len() == parts.len(),
        forall|i: int| 0 <= i < parts.len() ==> #[trigger] slices(parts)[i] == parts[i]@,
        forall|s: String| #[trigger] text_of(Some(s)) == Some(s@),
        text_of(None) is None,
{
}

} // verus!
