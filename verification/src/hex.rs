//! Hexadecimal text: digits, fixed-width rendering and parsing of `u16`.
use amplify::hex::ToHex;
use vstd::prelude::*;
use vstd::string::StringExecFns;

verus! {

/// Why a text is not a base-16 `u16`.
#[derive(Clone, Copy, Debug, PartialEq, Eq, Structural)]
pub enum ParseHexError {
    /// The text is empty.
    Empty,
    /// A character is no hexadecimal digit, or the text is a lone sign.
    InvalidDigit,
    /// The number does not fit sixteen bits.
    Overflow,
}

/// The lower-case digit for a nibble.
pub open spec fn digit_char(n: u8) -> char {
    if n < 10 {
        (n + 48) as u8 as char
    } else {
        (n + 87) as u8 as char
    }
}

/// The value of a hexadecimal digit, of either case.
pub open spec fn digit_value(c: char) -> Option<u8> {
    if '0' <= c && c <= '9' {
        Some((c as u32 - 48) as u8)
    } else if 'a' <= c && c <= 'f' {
        Some((c as u32 - 87) as u8)
    } else if 'A' <= c && c <= 'F' {
        Some((c as u32 - 55) as u8)
    } else {
        None
    }
}

/// The two lower-case digits of a byte, high nibble first.
pub open spec fn byte_digits(b: u8) -> Seq<char> {
    seq![digit_char(b / 16), digit_char(b % 16)]
}

/// The lower-case digits of a byte string, two for each byte.
pub open spec fn bytes_digits(bytes: Seq<u8>) -> Seq<char> {
    Seq::new(2 * bytes.len(), |i: int| if i % 2 == 0 {
        digit_char(bytes[i / 2] / 16)
    } else {
        digit_char(bytes[i / 2] % 16)
    })
}

/// The four lower-case digits of a `u16`, most significant first.
pub open spec fn u16_digits(v: u16) -> Seq<char> {
    seq![
        digit_char((v / 4096) as u8),
        digit_char((v / 256 % 16) as u8),
        digit_char((v / 16 % 16) as u8),
        digit_char((v % 16) as u8),
    ]
}

/// Reads digits from the left onto `acc`; stops at the first character that
/// is no digit, or at the first digit that takes the number past `u16`.
pub open spec fn scan_digits(s: Seq<char>, acc: nat) -> Result<nat, ParseHexError>
    decreases s.len(),
{
    if s.len() == 0 {
        Ok(acc)
    } else {
        match digit_value(s[0]) {
            None => Err(ParseHexError::InvalidDigit),
            Some(d) => if 16 * acc + d > u16::MAX {
                Err(ParseHexError::Overflow)
            } else {
                scan_digits(s.skip(1), 16 * acc + d as nat)
            },
        }
    }
}

/// The digits of a text: all of it, but for a `+` at its head.
pub open spec fn digits_of(s: Seq<char>) -> Seq<char> {
    if s.len() > 0 && s[0] == '+' {
        s.skip(1)
    } else {
        s
    }
}

/// What a text reads as in base 16: digits of either case, without a
/// prefix, after an optional `+`.
pub open spec fn parse_u16(s: Seq<char>) -> Result<u16, ParseHexError> {
    if s.len() == 0 {
        Err(ParseHexError::Empty)
    } else if s.len() == 1 && (s[0] == '+' || s[0] == '-') {
        Err(ParseHexError::InvalidDigit)
    } else {
        match scan_digits(digits_of(s), 0) {
            Ok(v) => Ok(v as u16),
            Err(e) => Err(e),
        }
    }
}

/// The value of a hexadecimal digit, if the character is one.
pub fn char_nibble(c: char) -> (v: Option<u8>)
    ensures
        v == digit_value(c),
        v matches Some(n) ==> n < 16,
{
    if '0' <= c && c <= '9' {
        Some((c as u32 - 48) as u8)
    } else if 'a' <= c && c <= 'f' {
        Some((c as u32 - 87) as u8)
    } else if 'A' <= c && c <= 'F' {
        Some((c as u32 - 55) as u8)
    } else {
        None
    }
}

/// `amplify::hex::ToHex::to_hex` on a byte slice: two lower-case digits
/// for each byte, high nibble first, in the order of the bytes.
#[verifier::external_body]
pub(crate) fn bytes_to_hex(bytes: &[u8]) -> (s: String)
    ensures
        s@ == bytes_digits(bytes@),
{
    bytes.to_hex()
}

/// The lower-case hexadecimal digit of a nibble, as a text.
pub fn nibble_str(n: u8) -> (s: &'static str)
    requires
        n < 16,
    ensures
        s@ == seq![digit_char(n)],
{
    proof {
        reveal_strlit("0");
        reveal_strlit("1");
        reveal_strlit("2");
        reveal_strlit("3");
        reveal_strlit("4");
        reveal_strlit("5");
        reveal_strlit("6");
        reveal_strlit("7");
        reveal_strlit("8");
        reveal_strlit("9");
        reveal_strlit("a");
        reveal_strlit("b");
        reveal_strlit("c");
        reveal_strlit("d");
        reveal_strlit("e");
        reveal_strlit("f");
        assert("0"@ =~= seq!['0']);
        assert("1"@ =~= seq!['1']);
        assert("2"@ =~= seq!['2']);
        assert("3"@ =~= seq!['3']);
        assert("4"@ =~= seq!['4']);
        assert("5"@ =~= seq!['5']);
        assert("6"@ =~= seq!['6']);
        assert("7"@ =~= seq!['7']);
        assert("8"@ =~= seq!['8']);
        assert("9"@ =~= seq!['9']);
        assert("a"@ =~= seq!['a']);
        assert("b"@ =~= seq!['b']);
        assert("c"@ =~= seq!['c']);
        assert("d"@ =~= seq!['d']);
        assert("e"@ =~= seq!['e']);
        assert("f"@ =~= seq!['f']);
    }
    match n {
        0 => "0",
        1 => "1",
        2 => "2",
        3 => "3",
        4 => "4",
        5 => "5",
        6 => "6",
        7 => "7",
        8 => "8",
        9 => "9",
        10 => "a",
        11 => "b",
        12 => "c",
        13 => "d",
        14 => "e",
        _ => "f",
    }
}

/// Renders a `u16` as four lower-case hexadecimal digits.
pub fn u16_to_hex(v: u16) -> (s: String)
    ensures
        s@ == u16_digits(v),
{
    let s = String::from_str(nibble_str((v / 4096) as u8)).concat(
        nibble_str((v / 256 % 16) as u8),
    ).concat(nibble_str((v / 16 % 16) as u8)).concat(nibble_str((v % 16) as u8));
    assert(s@ =~= u16_digits(v));
    s
}

/// Reads a `u16` from hexadecimal text without a prefix.
pub fn u16_from_hex(s: &str) -> (r: Result<u16, ParseHexError>)
    ensures
        r == parse_u16(s@),
{
    let mut acc: u16 = 0;
    let mut signed = false;
    let mut fault: Option<ParseHexError> = None;
    let mut any = false;
    let mut more = false;
    for c in iter: s.chars()
        invariant
            iter.seq() == s@,
            any == (iter.index() > 0),
            more == (iter.index() > 1),
            signed == (iter.index() > 0 && s@[0] == '+'),
            iter.index() == 0 ==> fault is None && acc == 0,
            fault is None && iter.index() > 0 ==> scan_digits(digits_of(s@), 0) == scan_digits(
                s@.skip(iter.index()),
                acc as nat,
            ),
            fault matches Some(e) ==> parse_u16(s@) == Err::<u16, ParseHexError>(e),
    {
        let ghost i = iter.index();
        let ghost rest = s@.skip(i);
        assert(rest.len() > 0 && rest[0] == c);
        assert(rest.skip(1) =~= s@.skip(i + 1));
        assert(s@.skip(0) =~= s@);
        if fault.is_none() {
            if !any && c == '+' {
                signed = true;
            } else {
                match char_nibble(c) {
                    None => {
                        fault = Some(ParseHexError::InvalidDigit);
                    },
                    Some(d) => {
                        if acc > 0x0FFF {
                            fault = Some(ParseHexError::Overflow);
                        } else {
                            acc = acc * 16 + d as u16;
                        }
                    },
                }
            }
        }
        more = any;
        any = true;
    }
    assert(s@.skip(s@.len() as int).len() == 0);
    match fault {
        Some(e) => Err(e),
        None => if !any {
            Err(ParseHexError::Empty)
        } else if !more && signed {
            Err(ParseHexError::InvalidDigit)
        } else {
            Ok(acc)
        },
    }
}

/// Reads back the digits of a value, when they are scanned onto nothing.
proof fn lemma_scan_four(d0: u8, d1: u8, d2: u8, d3: u8)
    requires
        d0 < 16,
        d1 < 16,
        d2 < 16,
        d3 < 16,
    ensures
        scan_digits(seq![digit_char(d0), digit_char(d1), digit_char(d2), digit_char(d3)], 0)
            == Ok::<nat, ParseHexError>((4096 * d0 + 256 * d1 + 16 * d2 + d3) as nat),
{
    let s = seq![digit_char(d0), digit_char(d1), digit_char(d2), digit_char(d3)];
    lemma_digit_round_trip(d0);
    lemma_digit_round_trip(d1);
    lemma_digit_round_trip(d2);
    lemma_digit_round_trip(d3);
    let s1 = s.skip(1);
    let s2 = s1.skip(1);
    let s3 = s2.skip(1);
    let s4 = s3.skip(1);
    assert(s1[0] == digit_char(d1) && s2[0] == digit_char(d2) && s3[0] == digit_char(d3));
    assert(s4.len() == 0);
    let a1 = d0 as nat;
    let a2 = 16 * a1 + d1 as nat;
    let a3 = 16 * a2 + d2 as nat;
    let a4 = 16 * a3 + d3 as nat;
    assert(scan_digits(s4, a4) == Ok::<nat, ParseHexError>(a4));
    assert(scan_digits(s3, a3) == scan_digits(s4, a4));
    assert(scan_digits(s2, a2) == scan_digits(s3, a3));
    assert(scan_digits(s1, a1) == scan_digits(s2, a2));
    assert(scan_digits(s, 0) == scan_digits(s1, a1));
}

/// The digit of a nibble has that nibble as its value, and is no sign.
pub proof fn lemma_digit_round_trip(n: u8)
    requires
        n < 16,
    ensures
        digit_value(digit_char(n)) == Some(n),
        digit_char(n) != '+',
        digit_char(n) != '-',
{
}

/// The four digits of a value read back as that value.
pub proof fn lemma_parse_u16_digits(v: u16)
    ensures
        parse_u16(u16_digits(v)) == Ok::<u16, ParseHexError>(v),
{
    let d0 = (v / 4096) as u8;
    let d1 = (v / 256 % 16) as u8;
    let d2 = (v / 16 % 16) as u8;
    let d3 = (v % 16) as u8;
    lemma_scan_four(d0, d1, d2, d3);
    lemma_digit_round_trip(d0);
    assert(u16_digits(v) =~= seq![digit_char(d0), digit_char(d1), digit_char(d2), digit_char(d3)]);
    assert(4096 * (v / 4096) + 256 * (v / 256 % 16) + 16 * (v / 16 % 16) + v % 16 == v)
        by (bit_vector);
    assert(v / 4096 < 16 && v / 256 % 16 < 16 && v / 16 % 16 < 16 && v % 16 < 16)
        by (bit_vector);
}

} // verus!
