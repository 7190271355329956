//! Helpers on strings, seen as sequences of characters.

use vstd::prelude::*;
use vstd::string::StrSliceExecFns;
use vstd::string::StringExecFns;
use vstd::string::StringSliceAdditionalSpecFns;
use vstd::utf8::{decode_utf8, encode_utf8_decode_utf8, valid_utf8};

verus! {

/// The characters of `s`, in order.
pub fn chars_of(s: &str) -> (chars: Vec<char>)
    ensures
        chars@ == s@,
{
    let mut chars: Vec<char> = Vec::new();
    for c in it: s.chars()
        invariant
            chars@ == it.seq().take(it.index() as int),
            it.seq() == s@,
    {
        chars.push(c);
    }
    chars
}

/// Whether `s` begins with the character `c`.
pub fn starts_with_char(s: &str, c: char) -> (b: bool)
    ensures
        b == (s@.len() > 0 && s@[0] == c),
{
    s.unicode_len() > 0 && s.get_char(0) == c
}

/// Whether `s` ends with the character `c`.
pub fn ends_with_char(s: &str, c: char) -> (b: bool)
    ensures
        b == (s@.len() > 0 && s@.last() == c),
{
    let n: usize = s.unicode_len();
    n > 0 && s.get_char(n - 1) == c
}

/// `s` without its first character, if it has one.
pub open spec fn without_first(s: Seq<char>) -> Seq<char> {
    if s.len() > 0 {
        s.subrange(1, s.len() as int)
    } else {
        s
    }
}

/// `s` without its last character, if it has one.
pub open spec fn without_last(s: Seq<char>) -> Seq<char> {
    if s.len() > 0 {
        s.drop_last()
    } else {
        s
    }
}

/// `s` without its first character, if it has one.
pub fn drop_first_char(s: &str) -> (rest: &str)
    ensures
        rest@ == without_first(s@),
{
    let n: usize = s.unicode_len();
    if n > 0 {
        s.substring_char(1, n)
    } else {
        s
    }
}

/// `s` without its last character, if it has one.
pub fn drop_last_char(s: &str) -> (rest: &str)
    ensures
        rest@ == without_last(s@),
{
    let n: usize = s.unicode_len();
    if n > 0 {
        s.substring_char(0, n - 1)
    } else {
        s
    }
}

/// `std::str::from_utf8`: the string that `bytes` encode, where they are
/// valid UTF-8, and nothing where they are not.
#[verifier::external_body]
fn str_from_utf8(bytes: &[u8]) -> (text: Option<&str>)
    ensures
        match text {
            Some(s) => valid_utf8(bytes@) && s.spec_bytes() == bytes@,
            None => !valid_utf8(bytes@),
        },
{
    match std::str::from_utf8(bytes) {
        Ok(s) => Some(s),
        Err(_) => None,
    }
}

/// The character of a decimal digit.
pub open spec fn digit_char(d: nat) -> char {
    if d == 0 {
        '0'
    } else if d == 1 {
        '1'
    } else if d == 2 {
        '2'
    } else if d == 3 {
        '3'
    } else if d == 4 {
        '4'
    } else if d == 5 {
        '5'
    } else if d == 6 {
        '6'
    } else if d == 7 {
        '7'
    } else if d == 8 {
        '8'
    } else {
        '9'
    }
}

/// The decimal numeral of `n`, without leading zeros.
pub open spec fn decimal_text(n: nat) -> Seq<char>
    decreases n,
{
    if n < 10 {
        seq![digit_char(n)]
    } else {
        decimal_text(n / 10).push(digit_char(n % 10))
    }
}

/// The numeral of one decimal digit.
fn digit_str(d: usize) -> (text: &'static str)
    requires
        d < 10,
    ensures
        text@ == seq![digit_char(d as nat)],
{
    proof {
        reveal_strlit("0");
        reveal_strlit("1");
        reveal_strlit("2");
        reveal_strlit("3");
        reveal_strlit("4");
        reveal_strlit("5");
        reveal_strlit("6");
        reveal_strlit("7");
        reveal_strlit("8");
        reveal_strlit("9");
    }
    let text: &'static str = if d == 0 {
        "0"
    } else if d == 1 {
        "1"
    } else if d == 2 {
        "2"
    } else if d == 3 {
        "3"
    } else if d == 4 {
        "4"
    } else if d == 5 {
        "5"
    } else if d == 6 {
        "6"
    } else if d == 7 {
        "7"
    } else if d == 8 {
        "8"
    } else {
        "9"
    };
    assert(text@ =~= seq![digit_char(d as nat)]);
    text
}

/// The decimal numeral of `n`.
pub fn decimal(n: usize) -> (text: String)
    ensures
        text@ == decimal_text(n as nat),
    decreases n,
{
    if n < 10 {
        digit_str(n).to_owned()
    } else {
        let mut text: String = decimal(n / 10);
        text.append(digit_str(n % 10));
        assert(text@ =~= decimal_text(n as nat));
        text
    }
}

/// An optional string as contracts see it.
pub open spec fn text_view(text: Option<String>) -> Option<Seq<char>> {
    match text {
        Some(s) => Some(s@),
        None => None,
    }
}

/// An optional borrowed string as contracts see it.
pub open spec fn text_view_ref(text: Option<&String>) -> Option<Seq<char>> {
    match text {
        Some(s) => Some(s@),
        None => None,
    }
}

/// Lines of bytes as contracts see them.
pub open spec fn lines_view(lines: Seq<Vec<u8>>) -> Seq<Seq<u8>> {
    Seq::new(lines.len(), |i: int| lines[i]@)
}

/// The text that `bytes` encode, where they are valid UTF-8.
pub open spec fn utf8_text(bytes: Seq<u8>) -> Option<Seq<char>> {
    if valid_utf8(bytes) {
        Some(decode_utf8(bytes))
    } else {
        None
    }
}

/// Reads `bytes` as UTF-8 text.
pub fn text_of_bytes(bytes: &[u8]) -> (text: Option<&str>)
    ensures
        match text {
            Some(s) => utf8_text(bytes@) == Some(s@),
            None => utf8_text(bytes@) is None,
        },
{
    let text = str_from_utf8(bytes);
    proof {
        if let Some(s) = text {
            encode_utf8_decode_utf8(s@);
        }
    }
    text
}

/// The character of a hexadecimal digit, in lower case.
pub open spec fn hex_digit_char(d: nat) -> char {
    if d < 10 {
        digit_char(d)
    } else if d == 10 {
        'a'
    } else if d == 11 {
        'b'
    } else if d == 12 {
        'c'
    } else if d == 13 {
        'd'
    } else if d == 14 {
        'e'
    } else {
        'f'
    }
}

/// `bytes` in hexadecimal: two digits for each byte, in their order.
pub open spec fn hex_text(bytes: Seq<u8>) -> Seq<char>
    decreases bytes.len(),
{
    if bytes.len() == 0 {
        Seq::empty()
    } else {
        hex_text(bytes.drop_last()).push(hex_digit_char((bytes.last() / 16) as nat)).push(
            hex_digit_char((bytes.last() % 16) as nat),
        )
    }
}

/// `bytes` as a reader is shown them: their text where they are UTF-8, else
/// their hexadecimal digits.
pub open spec fn shown(bytes: Seq<u8>) -> Seq<char> {
    match utf8_text(bytes) {
        Some(text) => text,
        None => "bytes: "@ + hex_text(bytes),
    }
}

/// `lines` as a reader is shown them: `; ` before each line, in their order.
pub open spec fn shown_lines(lines: Seq<Seq<u8>>) -> Seq<char>
    decreases lines.len(),
{
    if lines.len() == 0 {
        Seq::empty()
    } else {
        shown_lines(lines.drop_last()) + "; "@ + shown(lines.last())
    }
}

/// The numeral of one hexadecimal digit.
fn hex_digit_str(d: u8) -> (text: &'static str)
    requires
        d < 16,
    ensures
        text@ == seq![hex_digit_char(d as nat)],
{
    if d < 10 {
        digit_str(d as usize)
    } else {
        proof {
            reveal_strlit("a");
            reveal_strlit("b");
            reveal_strlit("c");
            reveal_strlit("d");
            reveal_strlit("e");
            reveal_strlit("f");
        }
        let text: &'static str = if d == 10 {
            "a"
        } else if d == 11 {
            "b"
        } else if d == 12 {
            "c"
        } else if d == 13 {
            "d"
        } else if d == 14 {
            "e"
        } else {
            "f"
        };
        assert(text@ =~= seq![hex_digit_char(d as nat)]);
        text
    }
}

/// `bytes` in hexadecimal.
pub fn hex(bytes: &[u8]) -> (text: String)
    ensures
        text@ == hex_text(bytes@),
{
    let mut text: String = String::new();
    let mut i: usize = 0;
    assert(bytes@.take(0) =~= Seq::<u8>::empty());
    while i < bytes.len()
        invariant
            i <= bytes.len(),
            text@ == hex_text(bytes@.take(i as int)),
        decreases bytes.len() - i,
    {
        let byte: u8 = bytes[i];
        assert(bytes@.take(i + 1).drop_last() =~= bytes@.take(i as int));
        assert(bytes@.take(i + 1).last() == byte);
        text.append(hex_digit_str(byte / 16));
        text.append(hex_digit_str(byte % 16));
        i += 1;
        assert(text@ =~= hex_text(bytes@.take(i as int)));
    }
    assert(bytes@.take(i as int) =~= bytes@);
    text
}

/// `bytes` as a reader is shown them.
pub fn show_bytes(bytes: &[u8]) -> (text: String)
    ensures
        text@ == shown(bytes@),
{
    match text_of_bytes(bytes) {
        Some(known) => known.to_owned(),
        None => {
            let mut text: String = "bytes: ".to_owned();
            let digits: String = hex(bytes);
            text.append(digits.as_str());
            text
        },
    }
}

/// `lines` as a reader is shown them.
pub fn show_lines(lines: &Vec<Vec<u8>>) -> (text: String)
    ensures
        text@ == shown_lines(lines_view(lines@)),
{
    let mut text: String = String::new();
    let mut i: usize = 0;
    let ghost all = lines_view(lines@);
    assert(all.take(0) =~= Seq::<Seq<u8>>::empty());
    while i < lines.len()
        invariant
            i <= lines.len(),
            all == lines_view(lines@),
            text@ == shown_lines(all.take(i as int)),
        decreases lines.len() - i,
    {
        assert(all.take(i + 1).drop_last() =~= all.take(i as int));
        assert(all.take(i + 1).last() == lines@[i as int]@);
        let line: String = show_bytes(lines[i].as_slice());
        text.append("; ");
        text.append(line.as_str());
        i += 1;
    }
    assert(all.take(i as int) =~= all);
    text
}

} // verus!
