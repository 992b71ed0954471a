//! Text helpers shared by the message table and the input components:
//! sanitising backend message content for single-line display, measuring
//! display width, and converting between strings and character vectors.

use vstd::prelude::*;
use vstd::string::StrSliceExecFns;
use vstd::string::StringExecFns;
use ansi_escape_sequences::strip_ansi;
use unicode_general_category::get_general_category;
use unicode_general_category::GeneralCategory;
use unicode_width::UnicodeWidthStr;

verus! {

/// The characters that remain after `strip_ansi` removes every ANSI escape
/// sequence from a string.
pub uninterp spec fn strip_ansi_of(s: Seq<char>) -> Seq<char>;

/// Whether a character's Unicode general category is Format, Control or
/// Unassigned; such characters are dropped from displayed message content.
pub uninterp spec fn excluded_category(c: char) -> bool;

/// The display width, in terminal columns, of a sequence of characters.
pub uninterp spec fn display_width(s: Seq<char>) -> nat;

/// Relies on `ansi_escape_sequences::strip_ansi`: the result is the input
/// with every ANSI escape sequence removed, a function of the characters
/// alone.
#[verifier::external_body]
fn strip_ansi_codes(s: &str) -> (r: String)
    ensures
        r@ == strip_ansi_of(s@),
{
    strip_ansi(s)
}

/// Relies on `unicode_general_category::get_general_category`, a pure table
/// lookup: tells whether the character falls in the Format, Control or
/// Unassigned category.
#[verifier::external_body]
fn char_excluded_category(c: char) -> (r: bool)
    ensures
        r == excluded_category(c),
{
    matches!(
        get_general_category(c),
        GeneralCategory::Format | GeneralCategory::Control | GeneralCategory::Unassigned
    )
}

/// Relies on `unicode_width::UnicodeWidthStr::width`, a pure function of the
/// characters that sums per-character column widths; an empty string has
/// width zero.
#[verifier::external_body]
pub(crate) fn text_width(s: &str) -> (r: usize)
    ensures
        r == display_width(s@),
        s@.len() == 0 ==> r == 0,
{
    UnicodeWidthStr::width(s)
}

/// Relies on `std::string::String::push`: appends one character.
#[verifier::external_body]
fn push_char(s: &mut String, c: char)
    ensures
        final(s)@ == old(s)@.push(c),
{
    s.push(c);
}

/// Whether a character is a control character: a code point in
/// `U+0000..=U+001F` or `U+007F..=U+009F`.
pub open spec fn is_control_code(c: char) -> bool {
    (c as u32) < 0x20 || (0x7f <= (c as u32) && (c as u32) < 0xa0)
}

fn is_control_char(c: char) -> (r: bool)
    ensures
        r == is_control_code(c),
{
    let u = c as u32;
    u < 0x20 || (0x7f <= u && u < 0xa0)
}

/// Whether a character survives content sanitisation: it is neither a
/// control character nor of an excluded Unicode category.
pub open spec fn keeps_char(c: char) -> bool {
    !is_control_code(c) && !excluded_category(c)
}

/// The sanitised form of raw message content: ANSI escape sequences removed,
/// then every control, format or unassigned character dropped. The result
/// holds no line breaks, so it is a single display line.
pub open spec fn sanitized(s: Seq<char>) -> Seq<char> {
    strip_ansi_of(s).filter(|c: char| keeps_char(c))
}

/// Removes ANSI escape sequences and every non-displayable character from
/// raw message content.
pub fn sanitize_text(s: &str) -> (r: String)
    ensures
        r@ == sanitized(s@),
{
    let stripped = strip_ansi_codes(s);
    let stripped_str = stripped.as_str();
    let n = stripped_str.unicode_len();
    let mut out = String::new();
    let mut i: usize = 0;
    while i < n
        invariant
            n == stripped@.len(),
            stripped_str@ == stripped@,
            i <= n,
            out@ == stripped@.subrange(0, i as int).filter(|c: char| keeps_char(c)),
        decreases n - i,
    {
        let c = stripped_str.get_char(i);
        let keep = !is_control_char(c) && !char_excluded_category(c);
        proof {
            reveal(Seq::filter);
            assert(stripped@.subrange(0, i + 1).drop_last() =~= stripped@.subrange(0, i as int));
            assert(stripped@.subrange(0, i + 1).last() == stripped@[i as int]);
        }
        if keep {
            push_char(&mut out, c);
        }
        i = i + 1;
    }
    proof {
        assert(stripped@.subrange(0, n as int) =~= stripped@);
    }
    out
}

/// Builds a string out of a vector of characters, preserving them in order.
pub fn chars_to_string(v: &Vec<char>) -> (r: String)
    ensures
        r@ == v@,
{
    let mut out = String::new();
    let mut i: usize = 0;
    while i < v.len()
        invariant
            i <= v@.len(),
            out@ == v@.subrange(0, i as int),
        decreases v@.len() - i,
    {
        push_char(&mut out, v[i]);
        proof {
            assert(out@ =~= v@.subrange(0, i + 1));
        }
        i = i + 1;
    }
    proof {
        assert(v@.subrange(0, v@.len() as int) =~= v@);
    }
    out
}

/// Splits a string into its characters, preserving them in order.
pub fn string_to_chars(s: &str) -> (r: Vec<char>)
    ensures
        r@ == s@,
{
    let n = s.unicode_len();
    let mut out: Vec<char> = Vec::new();
    let mut i: usize = 0;
    while i < n
        invariant
            n == s@.len(),
            i <= n,
            out@ == s@.subrange(0, i as int),
        decreases n - i,
    {
        out.push(s.get_char(i));
        proof {
            assert(out@ =~= s@.subrange(0, i + 1));
        }
        i = i + 1;
    }
    proof {
        assert(s@.subrange(0, n as int) =~= s@);
    }
    out
}

/// Whether a character has the Unicode White_Space property: the ASCII
/// spacing characters, NEL, and the dedicated space code points.
pub open spec fn is_space_char(c: char) -> bool {
    ||| (0x09 <= (c as u32) && (c as u32) <= 0x0d)
    ||| (c as u32) == 0x20
    ||| (c as u32) == 0x85
    ||| (c as u32) == 0xa0
    ||| (c as u32) == 0x1680
    ||| (0x2000 <= (c as u32) && (c as u32) <= 0x200a)
    ||| (c as u32) == 0x2028
    ||| (c as u32) == 0x2029
    ||| (c as u32) == 0x202f
    ||| (c as u32) == 0x205f
    ||| (c as u32) == 0x3000
}

/// Whether the text consists of whitespace alone (an empty text counts).
pub open spec fn is_blank(s: Seq<char>) -> bool {
    forall|i: int| 0 <= i < s.len() ==> is_space_char(#[trigger] s[i])
}

fn is_space_char_exec(c: char) -> (r: bool)
    ensures
        r == is_space_char(c),
{
    let u = c as u32;
    (0x09 <= u && u <= 0x0d) || u == 0x20 || u == 0x85 || u == 0xa0 || u == 0x1680 || (0x2000 <= u
        && u <= 0x200a) || u == 0x2028 || u == 0x2029 || u == 0x202f || u == 0x205f || u == 0x3000
}

/// Whether the buffer holds only whitespace, as a trimmed-emptiness test.
pub fn all_blank(v: &Vec<char>) -> (r: bool)
    ensures
        r == is_blank(v@),
{
    let n = v.len();
    let mut i: usize = 0;
    while i < n
        invariant
            n == v@.len(),
            i <= n,
            forall|j: int| 0 <= j < i ==> is_space_char(#[trigger] v@[j]),
        decreases n - i,
    {
        if !is_space_char_exec(v[i]) {
            return false;
        }
        i = i + 1;
    }
    true
}

/// The decimal digit character for a value below ten.
pub open spec fn digit_char(d: nat) -> char {
    if d == 0 {
        '0'
    } else if d == 1 {
        '1'
    } else if d == 2 {
        '2'
    } else if d == 3 {
        '3'
    } else if d == 4 {
        '4'
    } else if d == 5 {
        '5'
    } else if d == 6 {
        '6'
    } else if d == 7 {
        '7'
    } else if d == 8 {
        '8'
    } else {
        '9'
    }
}

/// The decimal representation of a natural number, most significant digit
/// first, with no leading zeros (zero itself is the single digit `0`).
pub open spec fn decimal_digits(n: nat) -> Seq<char>
    decreases n,
{
    if n < 10 {
        seq![digit_char(n)]
    } else {
        decimal_digits(n / 10).push(digit_char(n % 10))
    }
}

fn digit_char_exec(d: u64) -> (r: char)
    requires
        d < 10,
    ensures
        r == digit_char(d as nat),
{
    if d == 0 {
        '0'
    } else if d == 1 {
        '1'
    } else if d == 2 {
        '2'
    } else if d == 3 {
        '3'
    } else if d == 4 {
        '4'
    } else if d == 5 {
        '5'
    } else if d == 6 {
        '6'
    } else if d == 7 {
        '7'
    } else if d == 8 {
        '8'
    } else {
        '9'
    }
}

/// Writes a number in decimal, as identifiers are displayed.
pub fn u64_to_string(n: u64) -> (r: String)
    ensures
        r@ == decimal_digits(n as nat),
{
    let mut digits: Vec<char> = Vec::new();
    let mut m: u64 = n;
    if m == 0 {
        digits.push('0');
        proof {
            assert(decimal_digits(0) == seq![digit_char(0)]);
            assert(digits@ =~= seq![digit_char(0)]);
        }
    } else {
        proof {
            assert(decimal_digits(n as nat).add(digits@) =~= decimal_digits(n as nat));
        }
    }
    while m > 0
        invariant
            m > 0 ==> decimal_digits(n as nat) == decimal_digits(m as nat).add(digits@),
            m == 0 ==> decimal_digits(n as nat) == digits@,
        decreases m,
    {
        let ghost pre = digits@;
        let d = digit_char_exec(m % 10);
        digits.insert(0, d);
        proof {
            if m >= 10 {
                assert(decimal_digits(m as nat) == decimal_digits((m as nat) / 10).push(
                    digit_char((m as nat) % 10),
                ));
                assert(decimal_digits((m as nat) / 10).push(digit_char((m as nat) % 10)).add(pre)
                    =~= decimal_digits((m as nat) / 10).add(digits@));
            } else {
                assert(decimal_digits(m as nat) == seq![digit_char(m as nat)]);
                assert(decimal_digits(m as nat).add(pre) =~= digits@);
            }
        }
        m = m / 10;
    }
    chars_to_string(&digits)
}

} // verus!
