//! Numbers as text.

use vstd::prelude::*;

use crate::text;
use crate::text::{chars_of, starts_with, trim};

verus! {

/// The digit for a number below sixteen.
pub open spec fn hex_digit(n: int) -> char {
    if 0 <= n < 10 {
        ('0' as int + n) as char
    } else {
        ('a' as int + n - 10) as char
    }
}

/// The number that a hexadecimal digit of either case stands for.
pub open spec fn hex_value(c: char) -> Option<int> {
    if '0' <= c <= '9' {
        Some(c as int - '0' as int)
    } else if 'a' <= c <= 'f' {
        Some(c as int - 'a' as int + 10)
    } else if 'A' <= c <= 'F' {
        Some(c as int - 'A' as int + 10)
    } else {
        None
    }
}

/// The number that a text of digits stands for, to a base of ten or sixteen; at
/// least one digit is needed.
pub open spec fn number_of(s: Seq<char>, base: int) -> Option<int>
    decreases s.len(),
{
    if s.len() == 0 {
        None
    } else {
        match hex_value(s.last()) {
            Some(digit) => if digit >= base {
                None
            } else if s.len() == 1 {
                Some(digit)
            } else {
                match number_of(s.drop_last(), base) {
                    Some(rest) => Some(rest * base + digit),
                    None => None,
                }
            },
            None => None,
        }
    }
}

/// The same with a plus sign allowed in front.
pub open spec fn signed_number_of(s: Seq<char>, base: int) -> Option<int> {
    if s.len() > 0 && s[0] == '+' {
        number_of(s.skip(1), base)
    } else {
        number_of(s, base)
    }
}

/// That number, where it is no larger than `max`.
pub open spec fn number_up_to(s: Seq<char>, base: int, max: int) -> Option<int> {
    match signed_number_of(s, base) {
        Some(n) => if n <= max {
            Some(n)
        } else {
            None
        },
        None => None,
    }
}

/// A number as four hexadecimal digits.
pub open spec fn four_digits(n: u16) -> Seq<char> {
    seq![
        hex_digit(n as int / 4096),
        hex_digit(n as int / 256 % 16),
        hex_digit(n as int / 16 % 16),
        hex_digit(n as int % 16),
    ]
}

/// A number in decimal.
pub open spec fn decimal(n: nat) -> Seq<char>
    decreases n,
{
    if n < 10 {
        seq![hex_digit(n as int)]
    } else {
        decimal(n / 10).push(hex_digit((n % 10) as int))
    }
}

/// A text without a leading `0x` or `0X`.
pub open spec fn without_hex_mark(s: Seq<char>) -> Seq<char> {
    if "0x"@.is_prefix_of(s) || "0X"@.is_prefix_of(s) {
        s.skip(2)
    } else {
        s
    }
}

/// The USB id that a text stands for: one to four hexadecimal digits, with white
/// space around them and `0x` in front allowed.
pub open spec fn usb_id(s: Seq<char>) -> Option<int> {
    let digits = without_hex_mark(text::trimmed(s));
    if 1 <= digits.len() <= 4 {
        number_of(digits, 16)
    } else {
        None
    }
}

fn digit_char(n: u16) -> (r: char)
    requires
        n < 16,
    ensures
        r == hex_digit(n as int),
{
    let code: u8 = if n < 10 {
        48 + n as u8
    } else {
        87 + n as u8
    };
    code as char
}

/// The number as four hexadecimal digits.
pub fn hex4(n: u16) -> (r: String)
    ensures
        r@ == four_digits(n),
{
    let mut out: String = String::new();
    out.push(digit_char(n / 4096));
    out.push(digit_char(n / 256 % 16));
    out.push(digit_char(n / 16 % 16));
    out.push(digit_char(n % 16));
    assert(out@ =~= four_digits(n));
    out
}

/// The number in decimal.
pub fn decimal_text(n: u128) -> (r: String)
    ensures
        r@ == decimal(n as nat),
{
    let mut reversed: Vec<char> = Vec::new();
    let mut rest: u128 = n;
    while rest >= 10
        invariant
            decimal(n as nat) == decimal(rest as nat) + reversed@.reverse(),
        decreases rest,
    {
        let ghost before = reversed@;
        reversed.push(digit_char((rest % 10) as u16));
        assert(decimal(rest as nat) == decimal((rest / 10) as nat).push(
            hex_digit((rest % 10) as int),
        ));
        assert(decimal((rest / 10) as nat).push(hex_digit((rest % 10) as int)) + before.reverse()
            =~= decimal((rest / 10) as nat) + reversed@.reverse());
        rest = rest / 10;
    }
    let mut out: String = String::new();
    out.push(digit_char(rest as u16));
    assert(out@ =~= decimal(rest as nat));
    let ghost digits = reversed@.reverse();
    let mut i: usize = reversed.len();
    while i > 0
        invariant
            i <= reversed@.len(),
            digits == reversed@.reverse(),
            out@ == decimal(rest as nat) + digits.take(reversed@.len() - i),
        decreases i,
    {
        let ghost done = reversed@.len() - i;
        out.push(reversed[i - 1]);
        assert(digits.take(done + 1) =~= digits.take(done).push(digits[done]));
        assert(out@ =~= decimal(rest as nat) + digits.take(done + 1));
        i -= 1;
    }
    assert(digits.take(reversed@.len() as int) =~= digits);
    out
}

fn digit_value(c: char) -> (r: Option<u128>)
    ensures
        match r {
            Some(v) => hex_value(c) == Some(v as int) && v < 16,
            None => hex_value(c) is None,
        },
{
    if '0' <= c && c <= '9' {
        Some(c as u128 - 48)
    } else if 'a' <= c && c <= 'f' {
        Some(c as u128 - 87)
    } else if 'A' <= c && c <= 'F' {
        Some(c as u128 - 55)
    } else {
        None
    }
}

/// The number that a text stands for, where it is one and no larger than
/// `max`; a plus sign may stand in front.
fn parse_up_to(s: &str, base: u128, max: u128) -> (r: Option<u128>)
    requires
        base == 10 || base == 16,
        max <= u64::MAX,
    ensures
        match r {
            Some(n) => number_up_to(s@, base as int, max as int) == Some(n as int),
            None => number_up_to(s@, base as int, max as int) is None,
        },
{
    let chars: Vec<char> = chars_of(s);
    let start: usize = if chars.len() > 0 && chars[0] == '+' {
        1
    } else {
        0
    };
    if start == chars.len() {
        return None;
    }
    let ghost digits = s@.skip(start as int);
    assert(start == 0 ==> digits =~= s@);
    let mut value: u128 = 0;
    let mut i: usize = start;
    while i < chars.len()
        invariant
            chars@ == s@,
            start <= i <= chars@.len(),
            start < chars@.len(),
            digits == s@.skip(start as int),
            signed_number_of(s@, base as int) == number_of(digits, base as int),
            base == 10 || base == 16,
            max <= u64::MAX,
            value <= max,
            i == start ==> value == 0,
            i > start ==> number_of(digits.take(i - start), base as int) == Some(value as int),
        decreases chars@.len() - i,
    {
        let ghost prefix = digits.take(i + 1 - start);
        assert(prefix.last() == chars@[i as int]);
        assert(prefix.drop_last() =~= digits.take(i - start));
        let digit: u128 = match digit_value(chars[i]) {
            Some(digit) => digit,
            None => {
                proof {
                    lemma_prefix_bounds(digits, i + 1 - start, base as int);
                }
                return None;
            },
        };
        if digit >= base {
            proof {
                lemma_prefix_bounds(digits, i + 1 - start, base as int);
            }
            return None;
        }
        assert(value * base <= value * 16) by (nonlinear_arith)
            requires
                base <= 16,
        ;
        let next: u128 = value * base + digit;
        assert(number_of(prefix, base as int) == Some(next as int)) by {
            if i == start {
                assert(prefix.len() == 1);
                assert(next == digit) by (nonlinear_arith)
                    requires
                        value == 0,
                        next == value * base + digit,
                ;
            }
        }
        if next > max {
            proof {
                lemma_prefix_bounds(digits, i + 1 - start, base as int);
            }
            return None;
        }
        value = next;
        i += 1;
    }
    assert(digits.take(i - start) =~= digits);
    Some(value)
}

/// What is wrong with the beginning of a text of digits is wrong with the
/// whole, and the whole is no smaller than its beginning.
proof fn lemma_prefix_bounds(s: Seq<char>, n: int, base: int)
    requires
        0 < n <= s.len(),
        base == 10 || base == 16,
    ensures
        match number_of(s, base) {
            Some(whole) => number_of(s.take(n), base) matches Some(start) && 0 <= start <= whole,
            None => true,
        },
    decreases s.len(),
{
    if n < s.len() {
        lemma_prefix_bounds(s.drop_last(), n, base);
        assert(s.drop_last().take(n) =~= s.take(n));
        if let Some(whole) = number_of(s, base) {
            let rest = number_of(s.drop_last(), base)->0;
            assert(rest * base >= rest) by (nonlinear_arith)
                requires
                    rest >= 0,
                    base >= 1,
            ;
        }
    } else {
        assert(s.take(n) =~= s);
        if s.len() > 1 {
            lemma_prefix_bounds(s.drop_last(), n - 1, base);
            if let Some(whole) = number_of(s, base) {
                let rest = number_of(s.drop_last(), base)->0;
                assert(rest * base >= 0) by (nonlinear_arith)
                    requires
                        rest >= 0,
                        base >= 1,
                ;
            }
        }
    }
}

/// Up to four hexadecimal digits stand for a number of 16 bits.
proof fn lemma_four_digits_at_most(s: Seq<char>)
    ensures
        number_of(s, 16) matches Some(n) ==> {
            &&& 0 <= n
            &&& s.len() == 1 ==> n < 16
            &&& s.len() == 2 ==> n < 256
            &&& s.len() == 3 ==> n < 4096
            &&& s.len() == 4 ==> n < 65536
        },
    decreases s.len(),
{
    if s.len() > 1 {
        lemma_four_digits_at_most(s.drop_last());
    }
}

/// A text that begins with a sign is no row of digits.
proof fn lemma_sign_is_no_digit(s: Seq<char>)
    requires
        s.len() > 0,
        s[0] == '+',
    ensures
        number_of(s, 16) is None,
    decreases s.len(),
{
    if s.len() > 1 {
        lemma_sign_is_no_digit(s.drop_last());
    }
}

/// The USB id that a text stands for.
pub fn parse_hex_id(raw: &str) -> (r: Option<u16>)
    ensures
        match r {
            Some(id) => usb_id(raw@) == Some(id as int),
            None => usb_id(raw@) is None,
        },
{
    let trimmed: &str = trim(raw);
    let length: usize = chars_of(trimmed).len();
    proof {
        reveal_strlit("0x");
        reveal_strlit("0X");
    }
    let (digits, count): (&str, usize) = if starts_with(trimmed, "0x") || starts_with(
        trimmed,
        "0X",
    ) {
        (trimmed.substring_char(2, length), length - 2)
    } else {
        (trimmed, length)
    };
    assert(digits@ =~= without_hex_mark(trimmed@));
    if count == 0 || count > 4 {
        return None;
    }
    proof {
        lemma_four_digits_at_most(digits@);
        reveal_strlit("+");
    }
    if starts_with(digits, "+") {
        proof {
            assert(digits@[0] == "+"@[0]);
            lemma_sign_is_no_digit(digits@);
        }
        return None;
    }
    assert(digits@[0] != '+') by {
        if digits@[0] == '+' {
            assert("+"@ =~= digits@.take(1));
        }
    }
    match parse_up_to(digits, 16, u16::MAX as u128) {
        Some(n) => Some(n as u16),
        None => None,
    }
}

/// A decimal number that fits 32 bits.
pub fn parse_u32(s: &str) -> (r: Option<u32>)
    ensures
        match r {
            Some(n) => number_up_to(s@, 10, u32::MAX as int) == Some(n as int),
            None => number_up_to(s@, 10, u32::MAX as int) is None,
        },
{
    match parse_up_to(s, 10, u32::MAX as u128) {
        Some(n) => Some(n as u32),
        None => None,
    }
}

/// A decimal number that fits a `usize`.
pub fn parse_usize(s: &str) -> (r: Option<usize>)
    ensures
        match r {
            Some(n) => number_up_to(s@, 10, usize::MAX as int) == Some(n as int),
            None => number_up_to(s@, 10, usize::MAX as int) is None,
        },
{
    match parse_up_to(s, 10, usize::MAX as u128) {
        Some(n) => Some(n as usize),
        None => None,
    }
}

/// A digit stands for the number that it was made from, and is neither white
/// space nor a sign nor the mark of a hexadecimal number.
proof fn lemma_digit(d: int)
    requires
        0 <= d < 16,
    ensures
        hex_value(hex_digit(d)) == Some(d),
        !text::whitespace(hex_digit(d)),
        hex_digit(d) != '+',
        hex_digit(d) != 'x',
        hex_digit(d) != 'X',
{
}

/// The number that four digits stand for.
proof fn lemma_four_digits(a: int, b: int, c: int, d: int)
    requires
        0 <= a < 16,
        0 <= b < 16,
        0 <= c < 16,
        0 <= d < 16,
    ensures
        number_of(seq![hex_digit(a), hex_digit(b), hex_digit(c), hex_digit(d)], 16) == Some(
            ((a * 16 + b) * 16 + c) * 16 + d,
        ),
{
    lemma_digit(a);
    lemma_digit(b);
    lemma_digit(c);
    lemma_digit(d);
    let s1 = seq![hex_digit(a)];
    let s2 = s1.push(hex_digit(b));
    let s3 = s2.push(hex_digit(c));
    let s4 = s3.push(hex_digit(d));
    assert(number_of(s1, 16) == Some(a));
    assert(s2.drop_last() =~= s1);
    assert(number_of(s2, 16) == Some(a * 16 + b));
    assert(s3.drop_last() =~= s2);
    assert(number_of(s3, 16) == Some((a * 16 + b) * 16 + c));
    assert(s4.drop_last() =~= s3);
    assert(s4 =~= seq![hex_digit(a), hex_digit(b), hex_digit(c), hex_digit(d)]);
}

/// An id that was written as four digits reads back as itself.
pub proof fn law_usb_ids_read_back(n: u16)
    ensures
        usb_id(four_digits(n)) == Some(n as int),
{
    let a = n as int / 4096;
    let b = n as int / 256 % 16;
    let c = n as int / 16 % 16;
    let d = n as int % 16;
    let s = four_digits(n);
    lemma_digit(a);
    lemma_digit(b);
    lemma_digit(d);
    lemma_four_digits(a, b, c, d);
    assert(s[0] == hex_digit(a) && s[1] == hex_digit(b) && s.last() == hex_digit(d));
    assert(text::trimmed(s) == s);
    reveal_strlit("0x");
    reveal_strlit("0X");
    assert(!"0x"@.is_prefix_of(s)) by {
        if "0x"@.is_prefix_of(s) {
            assert(s[1] == "0x"@[1]);
        }
    }
    assert(!"0X"@.is_prefix_of(s)) by {
        if "0X"@.is_prefix_of(s) {
            assert(s[1] == "0X"@[1]);
        }
    }
}

/// A number that was written in decimal reads back as itself.
pub proof fn law_decimals_read_back(n: nat)
    ensures
        number_of(decimal(n), 10) == Some(n as int),
        signed_number_of(decimal(n), 10) == Some(n as int),
        decimal(n).len() > 0,
        '0' <= decimal(n)[0] <= '9',
    decreases n,
{
    if n >= 10 {
        law_decimals_read_back(n / 10);
        let s = decimal(n);
        assert(s.drop_last() =~= decimal(n / 10));
        assert(s.last() == hex_digit((n % 10) as int));
        assert(s[0] == decimal(n / 10)[0]);
    }
}

/// Whether a character is a digit to the base of ten or sixteen, of either case.
pub open spec fn is_digit(c: char, base: int) -> bool {
    ||| '0' <= c && c <= '9'
    ||| base == 16 && ('a' <= c && c <= 'f' || 'A' <= c && c <= 'F')
}

/// A text of digits, at least one, stands for a number, and no other text does;
/// a digit at the end counts once, and what stands before it as many times the
/// base.
pub proof fn law_digits_count_by_their_place(s: Seq<char>, c: char, base: int)
    requires
        base == 10 || base == 16,
    ensures
        number_of(Seq::<char>::empty(), base) is None,
        number_of(s, base) is Some <==> s.len() > 0 && forall|i: int|
            0 <= i < s.len() ==> is_digit(#[trigger] s[i], base),
        is_digit(c, base) && '0' <= c && c <= '9' ==> number_of(seq![c], base) == Some(
            c as int - 48,
        ),
        is_digit(c, base) && 'a' <= c && c <= 'f' ==> number_of(seq![c], base) == Some(
            c as int - 87,
        ),
        is_digit(c, base) && 'A' <= c && c <= 'F' ==> number_of(seq![c], base) == Some(
            c as int - 55,
        ),
        number_of(s, base) matches Some(n) ==> {
            &&& 0 <= n
            &&& is_digit(c, base) ==> number_of(s.push(c), base) == Some(
                n * base + number_of(seq![c], base)->0,
            )
        },
    decreases s.len(),
{
    assert(s.push(c).drop_last() =~= s);
    assert(seq![c].last() == c);
    if s.len() > 0 {
        let before = s.drop_last();
        law_digits_count_by_their_place(before, c, base);
        assert(s =~= before.push(s.last()));
        if number_of(s, base) is Some {
            assert forall|i: int| 0 <= i < s.len() implies is_digit(#[trigger] s[i], base) by {
                if i < before.len() {
                    assert(is_digit(before[i], base));
                }
            }
            if before.len() > 0 {
                assert(number_of(s, base)->0 >= 0) by (nonlinear_arith)
                    requires
                        number_of(s, base)->0 == number_of(before, base)->0 * base + hex_value(
                            s.last(),
                        )->0,
                        number_of(before, base)->0 >= 0,
                        base > 0,
                        hex_value(s.last())->0 >= 0,
                ;
            }
        }
        if forall|i: int| 0 <= i < s.len() ==> is_digit(#[trigger] s[i], base) {
            assert(is_digit(s[s.len() - 1], base));
            assert forall|i: int| 0 <= i < before.len() implies is_digit(
                #[trigger] before[i],
                base,
            ) by {
                assert(is_digit(s[i], base));
            }
        }
    }
}

/// A decimal number may have a plus sign in front, and counts where it is no
/// larger than it may be.
pub proof fn law_numbers_are_limited(s: Seq<char>, max: int)
    requires
        number_of(s, 10) is Some,
    ensures
        number_up_to(s, 10, max) == number_up_to(seq!['+'] + s, 10, max),
        number_of(s, 10)->0 <= max ==> number_up_to(s, 10, max) == number_of(s, 10),
        number_of(s, 10)->0 > max ==> number_up_to(s, 10, max) is None,
{
    law_digits_count_by_their_place(s, '0', 10);
    assert(is_digit(s[0], 10));
    assert((seq!['+'] + s).skip(1) =~= s);
}

/// A text is no decimal number where it holds anything but digits, after a plus
/// sign at most.
pub proof fn law_other_texts_are_no_numbers(s: Seq<char>, i: int, max: int)
    requires
        0 <= i < s.len(),
        !('0' <= s[i] && s[i] <= '9'),
        i > 0 || s[0] != '+',
    ensures
        number_up_to(s, 10, max) is None,
{
    law_digits_count_by_their_place(s, '0', 10);
    law_digits_count_by_their_place(s.skip(1), '0', 10);
    assert(!is_digit(s[i], 10));
    if i > 0 {
        assert(s.skip(1)[i - 1] == s[i]);
        assert(!is_digit(s.skip(1)[i - 1], 10));
    }
}

/// A text without the zero and the letter `x`, of either case, that may mark a
/// hexadecimal number.
pub open spec fn unmarked(t: Seq<char>) -> Seq<char> {
    if t.len() >= 2 && t[0] == '0' && (t[1] == 'x' || t[1] == 'X') {
        t.skip(2)
    } else {
        t
    }
}

/// Whether a text holds nothing but hexadecimal digits.
pub open spec fn all_hex(s: Seq<char>) -> bool {
    forall|i: int| 0 <= i < s.len() ==> is_digit(#[trigger] s[i], 16)
}

/// A USB id is one to four hexadecimal digits, of either case. White space around
/// it and a mark in front of it change nothing, and no other text is one.
pub proof fn law_shape_of_usb_ids(s: Seq<char>)
    ensures
        ({
            let digits = unmarked(text::trimmed(s));
            &&& usb_id(s) is Some <==> 1 <= digits.len() <= 4 && all_hex(digits)
            &&& usb_id(s) is Some ==> usb_id(s) == number_of(digits, 16) && 0 <= usb_id(s)->0
                <= 0xffff
        }),
{
    let t = text::trimmed(s);
    reveal_strlit("0x");
    reveal_strlit("0X");
    assert("0x"@.is_prefix_of(t) <==> t.len() >= 2 && t[0] == '0' && t[1] == 'x') by {
        if t.len() >= 2 && t[0] == '0' && t[1] == 'x' {
            assert(t.take(2) =~= "0x"@);
        }
        if "0x"@.is_prefix_of(t) {
            assert(t[0] == "0x"@[0] && t[1] == "0x"@[1]);
        }
    }
    assert("0X"@.is_prefix_of(t) <==> t.len() >= 2 && t[0] == '0' && t[1] == 'X') by {
        if t.len() >= 2 && t[0] == '0' && t[1] == 'X' {
            assert(t.take(2) =~= "0X"@);
        }
        if "0X"@.is_prefix_of(t) {
            assert(t[0] == "0X"@[0] && t[1] == "0X"@[1]);
        }
    }
    let digits = without_hex_mark(t);
    law_digits_count_by_their_place(digits, '0', 16);
    lemma_four_digits_at_most(digits);
    assert(digits == unmarked(t));
}

/// An id is written as four digits, none of them a capital.
pub proof fn law_ids_are_written_in_four_small_digits(n: u16)
    ensures
        four_digits(n).len() == 4,
        number_of(four_digits(n), 16) == Some(n as int),
        forall|i: int|
            0 <= i < 4 ==> '0' <= #[trigger] four_digits(n)[i] && four_digits(n)[i] <= '9' || 'a'
                <= four_digits(n)[i] && four_digits(n)[i] <= 'f',
{
    lemma_four_digits(n as int / 4096, n as int / 256 % 16, n as int / 16 % 16, n as int % 16);
}

/// A number is written in decimal without a zero in front.
pub proof fn law_decimals_have_no_leading_zero(n: nat)
    ensures
        decimal(n).len() > 1 ==> decimal(n)[0] != '0',
        n == 0 ==> decimal(n) == seq!['0'],
        forall|i: int|
            0 <= i < decimal(n).len() ==> '0' <= #[trigger] decimal(n)[i] && decimal(n)[i] <= '9',
    decreases n,
{
    if n >= 10 {
        law_decimals_have_no_leading_zero(n / 10);
        let before = decimal(n / 10);
        law_decimals_read_back(n / 10);
        assert(decimal(n)[0] == before[0]);
        if before.len() == 1 && before[0] == '0' {
            assert(before =~= seq!['0']);
            assert(before.last() == '0');
            assert(number_of(before, 10) == Some(0int));
        }
        assert forall|i: int| 0 <= i < decimal(n).len() implies '0' <= #[trigger] decimal(n)[i]
            && decimal(n)[i] <= '9' by {
            if i < before.len() {
                assert(decimal(n)[i] == before[i]);
            }
        }
    }
}

} // verus!
