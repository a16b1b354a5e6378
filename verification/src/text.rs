//! Text: digits and fixed-width numbers, letter case, and searching.

use vstd::prelude::*;
use vstd::string::StringExecFns;

verus! {

/// The character that stands for the digit `d` in bases up to sixteen,
/// with lower-case letters for ten to fifteen.
pub open spec fn digit_char(d: int) -> char {
    if d == 0 {
        '0'
    } else if d == 1 {
        '1'
    } else if d == 2 {
        '2'
    } else if d == 3 {
        '3'
    } else if d == 4 {
        '4'
    } else if d == 5 {
        '5'
    } else if d == 6 {
        '6'
    } else if d == 7 {
        '7'
    } else if d == 8 {
        '8'
    } else if d == 9 {
        '9'
    } else if d == 10 {
        'a'
    } else if d == 11 {
        'b'
    } else if d == 12 {
        'c'
    } else if d == 13 {
        'd'
    } else if d == 14 {
        'e'
    } else {
        'f'
    }
}

/// The decimal digits of `n`, most significant first, without leading zeros
/// (a single `0` for zero).
pub open spec fn decimal_digits(n: nat) -> Seq<char>
    decreases n,
{
    if n < 10 {
        seq![digit_char(n as int)]
    } else {
        decimal_digits(n / 10).push(digit_char((n % 10) as int))
    }
}

/// `count` copies of the character `0`.
pub open spec fn zeros(count: nat) -> Seq<char> {
    Seq::new(count, |i: int| '0')
}

/// The decimal digits of `n`, preceded by as many zeros as it takes to reach
/// `width` characters. A number with more digits than `width` is not cut.
pub open spec fn zero_padded(n: nat, width: nat) -> Seq<char> {
    let digits = decimal_digits(n);
    if digits.len() >= width {
        digits
    } else {
        zeros((width - digits.len()) as nat) + digits
    }
}

/// The two lower-case hexadecimal digits of one byte, high nibble first.
pub open spec fn hex_of_byte(byte: u8) -> Seq<char> {
    seq![digit_char(byte as int / 16), digit_char(byte as int % 16)]
}

/// The lower-case hexadecimal text of a byte string, two digits per byte.
pub open spec fn hex_lower(bytes: Seq<u8>) -> Seq<char>
    decreases bytes.len(),
{
    if bytes.len() == 0 {
        Seq::empty()
    } else {
        hex_lower(bytes.drop_last()) + hex_of_byte(bytes.last())
    }
}

/// Whether `needle` stands in `haystack` from the position `start` on.
pub open spec fn occurs_at(needle: Seq<char>, haystack: Seq<char>, start: int) -> bool {
    &&& 0 <= start
    &&& start + needle.len() <= haystack.len()
    &&& haystack.subrange(start, start + needle.len()) == needle
}

/// Whether `needle` stands somewhere in `haystack`, as a run of characters.
pub open spec fn occurs_in(needle: Seq<char>, haystack: Seq<char>) -> bool {
    exists|start: int| occurs_at(needle, haystack, start)
}

/// Whether `text` ends with the characters of `suffix`.
pub open spec fn has_suffix(text: Seq<char>, suffix: Seq<char>) -> bool {
    occurs_at(suffix, text, text.len() - suffix.len())
}

/// What `str::to_lowercase` makes of a text: its lower-case form by the
/// Unicode rules that the standard library implements.
pub uninterp spec fn lowercase_of(text: Seq<char>) -> Seq<char>;

/// What `char::to_uppercase` makes of a character: its upper-case form by the
/// Unicode rules that the standard library implements, which may be more
/// than one character.
pub uninterp spec fn uppercase_of(c: char) -> Seq<char>;

/// What `String::from_utf16_lossy` makes of UTF-16 code units: the text
/// they encode, with U+FFFD in the place of each unpaired surrogate.
pub uninterp spec fn utf16_text(units: Seq<u16>) -> Seq<char>;

/// Calls `String::from_utf16_lossy`. Trusted: the result is a function of
/// the code units alone, named [`utf16_text`].
#[verifier::external_body]
pub(crate) fn from_utf16_lossy(units: &[u16]) -> (text: String)
    ensures
        text@ == utf16_text(units@),
{
    String::from_utf16_lossy(units)
}

/// Calls `str::to_lowercase`. Trusted: the result is a function of the
/// characters of `text` alone, named [`lowercase_of`].
#[verifier::external_body]
pub(crate) fn to_lowercase(text: &str) -> (lower: String)
    ensures
        lower@ == lowercase_of(text@),
{
    text.to_lowercase()
}

/// Calls `char::to_uppercase` and takes what it yields as a text. Trusted:
/// the result is a function of `c` alone, named [`uppercase_of`].
#[verifier::external_body]
pub(crate) fn to_uppercase(c: char) -> (upper: String)
    ensures
        upper@ == uppercase_of(c),
{
    c.to_uppercase().to_string()
}

/// Calls `str::contains` with a string pattern. Trusted: it tells whether
/// the pattern matches a sub-slice of the text.
#[verifier::external_body]
pub(crate) fn contains(haystack: &str, needle: &str) -> (found: bool)
    ensures
        found == occurs_in(needle@, haystack@),
{
    haystack.contains(needle)
}

/// Calls `str::ends_with` with a string pattern. Trusted: it tells whether
/// the pattern matches a suffix of the text.
#[verifier::external_body]
pub(crate) fn ends_with(text: &str, suffix: &str) -> (found: bool)
    ensures
        found == has_suffix(text@, suffix@),
{
    text.ends_with(suffix)
}

/// The one-character text of a digit below sixteen.
pub fn digit_text(d: u8) -> (text: &'static str)
    requires
        d < 16,
    ensures
        text@ == seq![digit_char(d as int)],
{
    proof {
        reveal_strlit("0");
        reveal_strlit("1");
        reveal_strlit("2");
        reveal_strlit("3");
        reveal_strlit("4");
        reveal_strlit("5");
        reveal_strlit("6");
        reveal_strlit("7");
        reveal_strlit("8");
        reveal_strlit("9");
        reveal_strlit("a");
        reveal_strlit("b");
        reveal_strlit("c");
        reveal_strlit("d");
        reveal_strlit("e");
        reveal_strlit("f");
    }
    let text = if d == 0 {
        "0"
    } else if d == 1 {
        "1"
    } else if d == 2 {
        "2"
    } else if d == 3 {
        "3"
    } else if d == 4 {
        "4"
    } else if d == 5 {
        "5"
    } else if d == 6 {
        "6"
    } else if d == 7 {
        "7"
    } else if d == 8 {
        "8"
    } else if d == 9 {
        "9"
    } else if d == 10 {
        "a"
    } else if d == 11 {
        "b"
    } else if d == 12 {
        "c"
    } else if d == 13 {
        "d"
    } else if d == 14 {
        "e"
    } else {
        "f"
    };
    assert(text@ =~= seq![digit_char(d as int)]);
    text
}

/// Writes `n` in decimal, as `{}` does for an unsigned integer.
pub fn decimal_string(n: u64) -> (text: String)
    ensures
        text@ == decimal_digits(n as nat),
    decreases n,
{
    if n < 10 {
        let text = String::from_str(digit_text(n as u8));
        text
    } else {
        let mut text = decimal_string(n / 10);
        text.append(digit_text((n % 10) as u8));
        assert(text@ =~= decimal_digits(n as nat));
        text
    }
}

/// Writes `n` in decimal, filled with zeros on the left up to `width`
/// characters, as `{:0width$}` does for an unsigned integer.
pub fn zero_padded_string(n: u64, width: usize) -> (text: String)
    ensures
        text@ == zero_padded(n as nat, width as nat),
{
    let digits = decimal_string(n);
    let len: usize = digits.as_str().unicode_len();
    if len >= width {
        digits
    } else {
        let mut text = String::new();
        let mut written: usize = 0;
        while written < width - len
            invariant
                len < width,
                written <= width - len,
                text@ == zeros(written as nat),
            decreases width - len - written,
        {
            proof {
                reveal_strlit("0");
            }
            text.append("0");
            written = written + 1;
            assert(text@ =~= zeros(written as nat));
        }
        text.append(digits.as_str());
        text
    }
}

/// Writes a byte string in lower-case hexadecimal, two digits per byte.
pub fn hex_string(bytes: &[u8]) -> (text: String)
    ensures
        text@ == hex_lower(bytes@),
{
    let mut text = String::new();
    let mut done: usize = 0;
    while done < bytes.len()
        invariant
            done <= bytes.len(),
            text@ == hex_lower(bytes@.take(done as int)),
        decreases bytes.len() - done,
    {
        let byte: u8 = bytes[done];
        text.append(digit_text(byte / 16));
        text.append(digit_text(byte % 16));
        proof {
            let next = bytes@.take(done + 1);
            assert(next.drop_last() =~= bytes@.take(done as int));
            assert(next.last() == byte);
            assert(text@ =~= hex_lower(next));
        }
        done = done + 1;
    }
    assert(bytes@.take(done as int) =~= bytes@);
    text
}

} // verus!
