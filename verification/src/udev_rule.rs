//! The udev rule that gives the seat's user access to one mouse.

use vstd::prelude::*;

use crate::text;
use crate::text::{chars_of, lines, same, split_once, to_lower, trim};

verus! {

pub const UDEV_RULE_PATH: &'static str = "/etc/udev/rules.d/60-scrollock.rules";

/// The USB ids of a device, as four small hexadecimal digits each.
#[derive(Debug, PartialEq, Eq)]
pub struct DeviceIds {
    pub vendor: String,
    pub product: String,
}

/// The value of a property: that of the last line that sets it.
pub open spec fn property(lines: Seq<Seq<char>>, key: Seq<char>) -> Option<Seq<char>>
    decreases lines.len(),
{
    if lines.len() == 0 {
        None
    } else {
        match text::halves(lines.last(), "="@) {
            Some((name, value)) => if name == key {
                Some(value)
            } else {
                property(lines.drop_last(), key)
            },
            None => property(lines.drop_last(), key),
        }
    }
}

/// Whether a text consists of hexadecimal digits.
pub open spec fn all_hex(s: Seq<char>) -> bool {
    forall|i: int| 0 <= i < s.len() ==> crate::digits::hex_value(#[trigger] s[i]) is Some
}

/// An id in its normal form; none where it is no id.
pub open spec fn normal_id(raw: Seq<char>) -> Option<Seq<char>> {
    let value = text::trimmed(raw);
    if value.len() == 4 && all_hex(value) {
        Some(text::lowered(value))
    } else {
        None
    }
}

/// The id that a property holds.
pub open spec fn id_property(raw: Seq<char>, key: Seq<char>) -> Option<Seq<char>> {
    match property(text::lines_of(raw), key) {
        Some(value) => normal_id(value),
        None => None,
    }
}

/// The text of the rule for the given ids.
pub open spec fn rule_text(vendor: Seq<char>, product: Seq<char>) -> Seq<char> {
    "ACTION!=\"add|change\", GOTO=\"scrollock_end\"\n\nKERNEL==\"uinput\", SUBSYSTEM==\"misc\", TAG+=\"uaccess\", OPTIONS+=\"static_node=uinput\"\n\nKERNEL==\"event[0-9]*\", SUBSYSTEM==\"input\", ENV{ID_VENDOR_ID}==\""@
        + vendor + "\", ENV{ID_MODEL_ID}==\""@ + product
        + "\", MODE=\"0600\", TAG+=\"uaccess\"\n\nLABEL=\"scrollock_end\"\n"@
}

fn property_of<'a>(all: &Vec<&'a str>, key: &str) -> (r: Option<&'a str>)
    ensures
        match r {
            Some(value) => property(text::slices(all@), key@) == Some(value@),
            None => property(text::slices(all@), key@) is None,
        },
{
    let ghost every = text::slices(all@);
    let mut left: usize = all.len();
    assert(every.take(left as int) =~= every);
    while left > 0
        invariant
            left <= all@.len(),
            every == text::slices(all@),
            property(every, key@) == property(every.take(left as int), key@),
        decreases left,
    {
        let ghost here = every.take(left as int);
        assert(here.last() == all@[left - 1]@);
        assert(here.drop_last() =~= every.take(left - 1));
        match split_once(all[left - 1], "=") {
            Some((name, value)) => {
                if same(name, key) {
                    return Some(value);
                }
            },
            None => {},
        }
        left -= 1;
    }
    None
}

/// The ids among the properties of a device, one `KEY=value` per line.
pub fn parse_device_ids(raw: &str) -> (r: Option<DeviceIds>)
    ensures
        match r {
            Some(ids) => id_property(raw@, "ID_VENDOR_ID"@) == Some(ids.vendor@) && id_property(
                raw@,
                "ID_MODEL_ID"@,
            ) == Some(ids.product@),
            None => id_property(raw@, "ID_VENDOR_ID"@) is None || id_property(
                raw@,
                "ID_MODEL_ID"@,
            ) is None,
        },
{
    let all: Vec<&str> = lines(raw);
    let vendor: Option<String> = match property_of(&all, "ID_VENDOR_ID") {
        Some(value) => normalize_hex_id(value),
        None => None,
    };
    let product: Option<String> = match property_of(&all, "ID_MODEL_ID") {
        Some(value) => normalize_hex_id(value),
        None => None,
    };
    match (vendor, product) {
        (Some(vendor), Some(product)) => Some(DeviceIds { vendor, product }),
        _ => None,
    }
}

/// An id in its normal form.
pub fn normalize_hex_id(raw: &str) -> (r: Option<String>)
    ensures
        text::text_of(r) == normal_id(raw@),
{
    let value: &str = trim(raw);
    let chars: Vec<char> = chars_of(value);
    if chars.len() != 4 {
        return None;
    }
    let mut i: usize = 0;
    while i < 4
        invariant
            i <= 4,
            chars@.len() == 4,
            chars@ == value@,
            value@ == text::trimmed(raw@),
            forall|j: int| 0 <= j < i ==> crate::digits::hex_value(#[trigger] value@[j]) is Some,
        decreases 4 - i,
    {
        if !is_hex_digit(chars[i]) {
            assert(crate::digits::hex_value(value@[i as int]) is None);
            return None;
        }
        i += 1;
    }
    Some(to_lower(value))
}

fn is_hex_digit(c: char) -> (r: bool)
    ensures
        r == (crate::digits::hex_value(c) is Some),
{
    ('0' <= c && c <= '9') || ('a' <= c && c <= 'f') || ('A' <= c && c <= 'F')
}

/// The rule for the given ids.
pub fn render_rule(ids: &DeviceIds) -> (r: String)
    ensures
        r@ == rule_text(ids.vendor@, ids.product@),
{
    let mut out: String = String::new();
    out.append(
        "ACTION!=\"add|change\", GOTO=\"scrollock_end\"\n\nKERNEL==\"uinput\", SUBSYSTEM==\"misc\", TAG+=\"uaccess\", OPTIONS+=\"static_node=uinput\"\n\nKERNEL==\"event[0-9]*\", SUBSYSTEM==\"input\", ENV{ID_VENDOR_ID}==\"",
    );
    out.append(ids.vendor.as_str());
    out.append("\", ENV{ID_MODEL_ID}==\"");
    out.append(ids.product.as_str());
    out.append("\", MODE=\"0600\", TAG+=\"uaccess\"\n\nLABEL=\"scrollock_end\"\n");
    assert(out@ =~= rule_text(ids.vendor@, ids.product@));
    out
}

/// Why udev rules cannot be managed, where they cannot.
pub fn root_objection(is_root: bool) -> (r: Option<&'static str>)
    ensures
        match r {
            Some(reason) => !is_root && reason@
                == "udev rule management requires root; run this command with sudo"@,
            None => is_root,
        },
{
    if is_root {
        None
    } else {
        Some("udev rule management requires root; run this command with sudo")
    }
}

/// An id in its normal form is four digits long, and normalising it once more
/// changes nothing.
pub proof fn law_normal_ids_are_stable(raw: Seq<char>)
    ensures
        normal_id(raw) matches Some(id) ==> id.len() == 4 && normal_id(id) == Some(id),
{
    if let Some(id) = normal_id(raw) {
        let value = text::trimmed(raw);
        assert forall|i: int| 0 <= i < 4 implies {
            &&& crate::digits::hex_value(#[trigger] id[i]) is Some
            &&& !text::whitespace(id[i])
            &&& text::small(id[i]) == id[i]
        } by {
            assert(crate::digits::hex_value(value[i]) is Some);
            assert(id[i] == text::small(value[i]));
        }
        assert(!text::whitespace(id[0]));
        assert(!text::whitespace(id[3]));
        assert(text::trimmed(id) == id);
        assert(text::lowered(id) =~= id);
    }
}

/// A property has the value that the last line that sets it gives, all that
/// follows the first equals sign; lines that set another property, or none,
/// play no part.
pub proof fn law_last_setting_counts(
    lines: Seq<Seq<char>>,
    name: Seq<char>,
    value: Seq<char>,
    key: Seq<char>,
)
    requires
        !name.contains('='),
    ensures
        property(Seq::<Seq<char>>::empty(), key) is None,
        name == key ==> property(lines.push(name + seq!['='] + value), key) == Some(value),
        name != key ==> property(lines.push(name + seq!['='] + value), key) == property(lines, key),
        property(lines.push(name), key) == property(lines, key),
{
    reveal_strlit("=");
    assert("="@ =~= seq!['=']);
    let line = name + seq!['='] + value;
    let n = name.len() as int;
    text::law_halves_make_the_whole(line, "="@);
    text::law_halves_make_the_whole(name, "="@);
    assert(line.subrange(n, n + 1) =~= "="@);
    let (a, b) = text::halves(line, "="@)->0;
    assert(text::halves(line, "="@) is Some);
    if a.len() < n {
        assert(line[a.len() as int] == (a + "="@ + b)[a.len() as int]);
        assert(name[a.len() as int] == '=');
    }
    assert(a.len() == n);
    assert(a =~= line.take(n));
    assert(line.take(n) =~= name);
    assert(b =~= line.skip(n + 1));
    assert(line.skip(n + 1) =~= value);
    if let Some((c, d)) = text::halves(name, "="@) {
        assert(name[c.len() as int] == (c + "="@ + d)[c.len() as int]);
        assert(name[c.len() as int] == '=');
    }
    assert(lines.push(line).drop_last() =~= lines);
    assert(lines.push(name).drop_last() =~= lines);
}

/// An id is four hexadecimal digits with white space around them at most, in
/// small letters; anything else is none.
pub proof fn law_shape_of_ids(raw: Seq<char>)
    ensures
        normal_id(raw) is Some <==> text::trimmed(raw).len() == 4 && crate::digits::all_hex(
            text::trimmed(raw),
        ),
        normal_id(raw) matches Some(id) ==> id == text::lowered(text::trimmed(raw)),
        normal_id(raw) matches Some(id) ==> crate::digits::usb_id(id) == crate::digits::usb_id(raw),
{
    let value = text::trimmed(raw);
    assert(all_hex(value) <==> crate::digits::all_hex(value)) by {
        if all_hex(value) {
            assert forall|i: int| 0 <= i < value.len() implies crate::digits::is_digit(
                #[trigger] value[i],
                16,
            ) by {
                assert(crate::digits::hex_value(value[i]) is Some);
            }
        }
        if crate::digits::all_hex(value) {
            assert forall|i: int| 0 <= i < value.len() implies crate::digits::hex_value(
                #[trigger] value[i],
            ) is Some by {
                assert(crate::digits::is_digit(value[i], 16));
            }
        }
    }
    if let Some(id) = normal_id(raw) {
        assert forall|i: int| 0 <= i < 4 implies crate::digits::hex_value(#[trigger] id[i])
            == crate::digits::hex_value(value[i]) && crate::digits::hex_value(id[i]) is Some
            && !text::whitespace(id[i]) by {
            assert(crate::digits::hex_value(value[i]) is Some);
            assert(id[i] == text::small(value[i]));
        }
        assert(text::trimmed(id) == id) by {
            assert(!text::whitespace(id[0]));
            assert(!text::whitespace(id[3]));
        }
        lemma_no_mark(id);
        lemma_no_mark(value);
        lemma_same_digits(id, value);
    }
}

proof fn lemma_no_mark(s: Seq<char>)
    requires
        s.len() == 4,
        crate::digits::hex_value(s[1]) is Some,
    ensures
        crate::digits::without_hex_mark(s) == s,
{
    reveal_strlit("0x");
    reveal_strlit("0X");
    if "0x"@.is_prefix_of(s) {
        assert(s[1] == "0x"@[1]);
    }
    if "0X"@.is_prefix_of(s) {
        assert(s[1] == "0X"@[1]);
    }
}

proof fn lemma_same_digits(a: Seq<char>, b: Seq<char>)
    requires
        a.len() == b.len(),
        forall|i: int|
            0 <= i < a.len() ==> crate::digits::hex_value(#[trigger] a[i])
                == crate::digits::hex_value(b[i]),
    ensures
        crate::digits::number_of(a, 16) == crate::digits::number_of(b, 16),
    decreases a.len(),
{
    if a.len() > 0 {
        assert(a[a.len() - 1] == a.last());
        lemma_same_digits(a.drop_last(), b.drop_last());
    }
}

/// The rule names both ids, the vendor's before the product's, and differs for
/// no other reason.
pub proof fn law_rule_names_the_ids(vendor: Seq<char>, product: Seq<char>)
    ensures
        exists|head: Seq<char>, middle: Seq<char>, tail: Seq<char>|
            #![trigger head + middle + tail]
            rule_text(vendor, product) == head + vendor + middle + product + tail
                && "ENV{ID_VENDOR_ID}==\""@.is_suffix_of(head) && "ENV{ID_MODEL_ID}==\""@.is_suffix_of(
                middle,
            ),
{
    let head = "ACTION!=\"add|change\", GOTO=\"scrollock_end\"\n\nKERNEL==\"uinput\", SUBSYSTEM==\"misc\", TAG+=\"uaccess\", OPTIONS+=\"static_node=uinput\"\n\nKERNEL==\"event[0-9]*\", SUBSYSTEM==\"input\", ENV{ID_VENDOR_ID}==\""@;
    let middle = "\", ENV{ID_MODEL_ID}==\""@;
    let tail = "\", MODE=\"0600\", TAG+=\"uaccess\"\n\nLABEL=\"scrollock_end\"\n"@;
    reveal_strlit("ENV{ID_VENDOR_ID}==\"");
    reveal_strlit("ENV{ID_MODEL_ID}==\"");
    reveal_strlit(
        "ACTION!=\"add|change\", GOTO=\"scrollock_end\"\n\nKERNEL==\"uinput\", SUBSYSTEM==\"misc\", TAG+=\"uaccess\", OPTIONS+=\"static_node=uinput\"\n\nKERNEL==\"event[0-9]*\", SUBSYSTEM==\"input\", ENV{ID_VENDOR_ID}==\"",
    );
    reveal_strlit("\", ENV{ID_MODEL_ID}==\"");
    assert(head.skip(head.len() - 20) =~= "ENV{ID_VENDOR_ID}==\""@);
    assert(middle.skip(middle.len() - 19) =~= "ENV{ID_MODEL_ID}==\""@);
    let all = head + middle + tail;
    assert(rule_text(vendor, product) =~= head + vendor + middle + product + tail);
}

/// The id that a property holds is the normal form of its value, and there is one
/// exactly where the property is set, at last, to an id.
pub proof fn law_ids_are_looked_up(raw: Seq<char>, key: Seq<char>)
    ensures
        match property(text::lines_of(raw), key) {
            Some(value) => id_property(raw, key) == normal_id(value),
            None => id_property(raw, key) is None,
        },
{
}

} // verus!
