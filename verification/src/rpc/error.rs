use crate::hex::{parse_u16, u16_digits, u16_from_hex, u16_to_hex, ParseHexError};
use lightning_encoding::{LightningDecode, LightningEncode};
use std::fmt::Debug;
use std::hash::Hash;
use strict_encoding::{StrictDecode, StrictEncode};
use vstd::prelude::*;
use vstd::std_specs::convert::{FromSpec, FromSpecImpl, IntoSpec};
use crate::esb::bus::utf8_lossy;
use vstd::pervasive::unreached;
use vstd::string::StringExecFns;
use vstd::utf8::{decode_utf8, encode_utf8, valid_utf8};

verus! {

#[verifier::external_type_specification]
#[verifier::external_body]
pub struct ExLightningError(lightning_encoding::Error);

#[verifier::external_type_specification]
#[verifier::external_body]
pub struct ExStrictError(strict_encoding::Error);

#[verifier::external_type_specification]
#[verifier::external_body]
pub struct ExPresentationError(internet2::presentation::Error);

#[verifier::external_type_specification]
#[verifier::external_body]
pub struct ExTransportError(internet2::transport::Error);

/// `Clone` of `internet2::presentation::Error`, which is derived: the copy
/// equals what it was made from.
pub assume_specification[ <internet2::presentation::Error as Clone>::clone ](
    err: &internet2::presentation::Error,
) -> (copy: internet2::presentation::Error)
    ensures
        copy == *err,
;

/// `Clone` of `internet2::transport::Error`, which is derived: the copy
/// equals what it was made from.
pub assume_specification[ <internet2::transport::Error as Clone>::clone ](
    err: &internet2::transport::Error,
) -> (copy: internet2::transport::Error)
    ensures
        copy == *err,
;

/// The transport error that a presentation error of internet2 wraps, if it
/// is its `Transport` variant.
pub uninterp spec fn transport_cause(err: internet2::presentation::Error) -> Option<
    internet2::transport::Error,
>;

/// Tells the `Transport` variant of `internet2::presentation::Error` from
/// the others: gives the wrapped transport error, or the error itself.
#[verifier::external_body]
pub(crate) fn take_transport(err: internet2::presentation::Error) -> (r: Result<
    internet2::transport::Error,
    internet2::presentation::Error,
>)
    ensures
        r matches Ok(cause) ==> transport_cause(err) == Some(cause),
        r matches Err(other) ==> transport_cause(err) is None && other == err,
{
    match err {
        internet2::presentation::Error::Transport(cause) => Ok(cause),
        other => Err(other),
    }
}

/// A length in the variable-size form that lightning encoding puts before a
/// byte string: one byte below `0xFD`, else a marker and two, four or eight
/// bytes, most significant first.
pub open spec fn big_size(n: nat) -> Seq<u8> {
    if n < 0xFD {
        seq![n as u8]
    } else if n <= 0xFFFF {
        seq![0xFDu8, (n / 0x100) as u8, (n % 0x100) as u8]
    } else if n <= 0xFFFF_FFFF {
        seq![
            0xFEu8,
            (n / 0x100_0000) as u8,
            (n / 0x1_0000 % 0x100) as u8,
            (n / 0x100 % 0x100) as u8,
            (n % 0x100) as u8,
        ]
    } else {
        seq![
            0xFFu8,
            (n / 0x100_0000_0000_0000 % 0x100) as u8,
            (n / 0x1_0000_0000_0000 % 0x100) as u8,
            (n / 0x100_0000_0000 % 0x100) as u8,
            (n / 0x1_0000_0000 % 0x100) as u8,
            (n / 0x100_0000 % 0x100) as u8,
            (n / 0x1_0000 % 0x100) as u8,
            (n / 0x100 % 0x100) as u8,
            (n % 0x100) as u8,
        ]
    }
}

/// The number that `count` bytes from the second on stand for, most
/// significant first.
pub open spec fn be_value(bytes: Seq<u8>, count: nat) -> nat
    decreases count,
{
    if count == 0 {
        0
    } else {
        be_value(bytes, (count - 1) as nat) * 256 + bytes[count as int] as nat
    }
}

/// The length that a byte string declares at its head, with the number of
/// bytes that declare it; none where the head is cut short or the length is
/// not in its shortest form.
pub open spec fn declared(bytes: Seq<u8>) -> Option<(nat, nat)> {
    if bytes.len() == 0 {
        None
    } else if bytes[0] < 0xFD {
        Some((bytes[0] as nat, 1nat))
    } else if bytes[0] == 0xFD {
        if bytes.len() >= 3 && be_value(bytes, 2) >= 0xFD {
            Some((be_value(bytes, 2), 3nat))
        } else {
            None
        }
    } else if bytes[0] == 0xFE {
        if bytes.len() >= 5 && be_value(bytes, 4) >= 0x1_0000 {
            Some((be_value(bytes, 4), 5nat))
        } else {
            None
        }
    } else {
        if bytes.len() >= 9 && be_value(bytes, 8) >= 0x1_0000_0000 {
            Some((be_value(bytes, 8), 9nat))
        } else {
            None
        }
    }
}

/// Whether a byte string is a length and just as many bytes after it.
pub open spec fn framed(bytes: Seq<u8>) -> bool {
    declared(bytes) matches Some((n, k)) && n + k == bytes.len()
}

/// The bytes of a framed byte string after its length.
pub open spec fn payload(bytes: Seq<u8>) -> Seq<u8> {
    bytes.subrange(declared(bytes)->Some_0.1 as int, bytes.len() as int)
}

/// The number of bytes that declare a length, as its first byte tells.
pub fn prefix_len(head: u8) -> (k: usize)
    ensures
        k == if head < 0xFD {
            1nat
        } else if head == 0xFD {
            3nat
        } else if head == 0xFE {
            5nat
        } else {
            9nat
        },
        forall|bytes: Seq<u8>|
            bytes.len() > 0 && bytes[0] == head && #[trigger] declared(bytes) is Some ==> declared(
                bytes,
            )->Some_0.1 == k,
{
    if head < 0xFD {
        1
    } else if head == 0xFD {
        3
    } else if head == 0xFE {
        5
    } else {
        9
    }
}

/// The digits of a number in four bytes give the number back.
proof fn lemma_digits_four(v: u64)
    requires
        v <= 0xFFFF_FFFF,
    ensures
        ((v / 0x100_0000) * 256 + v / 0x1_0000 % 0x100) * 256 * 256 + (v / 0x100 % 0x100) * 256 + v
            % 0x100 == v,
        v / 0x100_0000 < 256,
{
    assert(((v / 0x100_0000) * 256 + v / 0x1_0000 % 0x100) * 256 * 256 + (v / 0x100 % 0x100) * 256
        + v % 0x100 == v && v / 0x100_0000 < 256) by (bit_vector)
        requires
            v <= 0xFFFF_FFFF,
    ;
}

/// The digits of a number in eight bytes give the number back.
proof fn lemma_digits_eight(v: u64)
    ensures
        (v / 0x1_0000_0000) * 0x1_0000_0000 + v % 0x1_0000_0000 == v,
        v / 0x1_0000_0000 <= 0xFFFF_FFFF,
        v % 0x1_0000_0000 <= 0xFFFF_FFFF,
        (v / 0x1_0000_0000) / 0x100_0000 == v / 0x100_0000_0000_0000 % 0x100,
        (v / 0x1_0000_0000) / 0x1_0000 % 0x100 == v / 0x1_0000_0000_0000 % 0x100,
        (v / 0x1_0000_0000) / 0x100 % 0x100 == v / 0x100_0000_0000 % 0x100,
        (v / 0x1_0000_0000) % 0x100 == v / 0x1_0000_0000 % 0x100,
        (v % 0x1_0000_0000) / 0x100_0000 == v / 0x100_0000 % 0x100,
        (v % 0x1_0000_0000) / 0x1_0000 % 0x100 == v / 0x1_0000 % 0x100,
        (v % 0x1_0000_0000) / 0x100 % 0x100 == v / 0x100 % 0x100,
        (v % 0x1_0000_0000) % 0x100 == v % 0x100,
{
    assert((v / 0x1_0000_0000) * 0x1_0000_0000 + v % 0x1_0000_0000 == v && v / 0x1_0000_0000
        <= 0xFFFF_FFFF && v % 0x1_0000_0000 <= 0xFFFF_FFFF) by (bit_vector);
    assert((v / 0x1_0000_0000) / 0x100_0000 == v / 0x100_0000_0000_0000 % 0x100 && (v
        / 0x1_0000_0000) / 0x1_0000 % 0x100 == v / 0x1_0000_0000_0000 % 0x100 && (v
        / 0x1_0000_0000) / 0x100 % 0x100 == v / 0x100_0000_0000 % 0x100 && (v / 0x1_0000_0000)
        % 0x100 == v / 0x1_0000_0000 % 0x100) by (bit_vector);
    assert((v % 0x1_0000_0000) / 0x100_0000 == v / 0x100_0000 % 0x100 && (v % 0x1_0000_0000)
        / 0x1_0000 % 0x100 == v / 0x1_0000 % 0x100 && (v % 0x1_0000_0000) / 0x100 % 0x100 == v
        / 0x100 % 0x100 && (v % 0x1_0000_0000) % 0x100 == v % 0x100) by (bit_vector);
}

/// A length in variable-size form reads back as itself, whatever follows
/// it.
#[verifier::rlimit(50)]
pub proof fn lemma_big_size_declared(n: nat, rest: Seq<u8>)
    requires
        n <= u64::MAX,
    ensures
        declared(big_size(n) + rest) == Some((n, big_size(n).len())),
{
    reveal_with_fuel(be_value, 9);
    let bytes = big_size(n) + rest;
    let v = n as u64;
    if n < 0xFD {
        assert(bytes[0] == n as u8);
    } else if n <= 0xFFFF {
        assert(bytes[0] == 0xFDu8 && bytes[1] == (n / 0x100) as u8 && bytes[2] == (n % 0x100) as u8);
        assert(be_value(bytes, 2) == (n / 0x100) * 256 + n % 0x100);
    } else if n <= 0xFFFF_FFFF {
        lemma_digits_four(v);
        let d1 = v / 0x100_0000;
        let d2 = v / 0x1_0000 % 0x100;
        let d3 = v / 0x100 % 0x100;
        let d4 = v % 0x100;
        assert(bytes[0] == 0xFEu8);
        assert(bytes[1] == d1 as u8 && bytes[2] == d2 as u8 && bytes[3] == d3 as u8 && bytes[4]
            == d4 as u8);
        assert(be_value(bytes, 4) == ((d1 * 256 + d2) * 256 + d3) * 256 + d4);
    } else {
        lemma_digits_eight(v);
        let hi = v / 0x1_0000_0000;
        let lo = v % 0x1_0000_0000;
        lemma_digits_four(hi);
        lemma_digits_four(lo);
        let h1 = hi / 0x100_0000;
        let h2 = hi / 0x1_0000 % 0x100;
        let h3 = hi / 0x100 % 0x100;
        let h4 = hi % 0x100;
        let l1 = lo / 0x100_0000;
        let l2 = lo / 0x1_0000 % 0x100;
        let l3 = lo / 0x100 % 0x100;
        let l4 = lo % 0x100;
        assert(bytes[0] == 0xFFu8);
        assert(bytes[1] == h1 as u8 && bytes[2] == h2 as u8 && bytes[3] == h3 as u8 && bytes[4]
            == h4 as u8);
        assert(bytes[5] == l1 as u8 && bytes[6] == l2 as u8 && bytes[7] == l3 as u8 && bytes[8]
            == l4 as u8);
        assert(be_value(bytes, 4) == ((h1 * 256 + h2) * 256 + h3) * 256 + h4);
        assert(be_value(bytes, 4) == hi);
        assert(be_value(bytes, 8) == (((hi * 256 + l1) * 256 + l2) * 256 + l3) * 256 + l4);
        assert(be_value(bytes, 8) == hi * 0x1_0000_0000 + lo);
    }
}

/// Reads the length that a byte string declares at its head.
pub fn declared_len(bytes: &[u8]) -> (r: Option<(u64, usize)>)
    ensures
        r is Some <==> declared(bytes@) is Some,
        r matches Some((n, k)) ==> declared(bytes@) == Some((n as nat, k as nat)),
{
    if bytes.len() == 0 {
        return None;
    }
    let head = bytes[0];
    reveal_with_fuel(be_value, 9);
    if head < 0xFD {
        Some((head as u64, 1))
    } else if head == 0xFD {
        if bytes.len() < 3 {
            return None;
        }
        let v: u64 = bytes[1] as u64 * 256 + bytes[2] as u64;
        if v < 0xFD {
            None
        } else {
            Some((v, 3))
        }
    } else if head == 0xFE {
        if bytes.len() < 5 {
            return None;
        }
        let v1: u64 = bytes[1] as u64 * 256 + bytes[2] as u64;
        let v2: u64 = v1 * 256 + bytes[3] as u64;
        let v: u64 = v2 * 256 + bytes[4] as u64;
        if v < 0x1_0000 {
            None
        } else {
            Some((v, 5))
        }
    } else {
        if bytes.len() < 9 {
            return None;
        }
        let v1: u64 = bytes[1] as u64 * 256 + bytes[2] as u64;
        let v2: u64 = v1 * 256 + bytes[3] as u64;
        let v3: u64 = v2 * 256 + bytes[4] as u64;
        let v4: u64 = v3 * 256 + bytes[5] as u64;
        let v5: u64 = v4 * 256 + bytes[6] as u64;
        let v6: u64 = v5 * 256 + bytes[7] as u64;
        let v: u64 = v6 * 256 + bytes[8] as u64;
        if v < 0x1_0000_0000 {
            None
        } else {
            Some((v, 9))
        }
    }
}

/// `LightningEncode::lightning_serialize` on a `String`: written into a
/// fresh vector, which cannot fail, as the length of its bytes in
/// variable-size form and then the bytes.
#[verifier::external_body]
fn lightning_string(text: &String) -> (r: Option<Vec<u8>>)
    ensures
        r is Some,
        r matches Some(bytes) ==> bytes@ == big_size(encode_utf8(text@).len()) + encode_utf8(
            text@,
        ),
{
    text.lightning_serialize().ok()
}

/// `LightningDecode::lightning_deserialize` for `String`, on a length and
/// just as many bytes after it: the text that `String::from_utf8_lossy`
/// makes of those bytes.
#[verifier::external_body]
fn lightning_string_from(bytes: &[u8]) -> (r: Option<String>)
    requires
        framed(bytes@),
    ensures
        r is Some,
        r matches Some(text) ==> text@ == utf8_lossy(payload(bytes@)),
        r matches Some(text) ==> (valid_utf8(payload(bytes@)) ==> text@ == decode_utf8(
            payload(bytes@),
        )),
{
    String::lightning_deserialize(bytes).ok()
}

/// The two bytes of a value, most significant first.
pub open spec fn be_bytes(v: u16) -> Seq<u8> {
    seq![(v / 256) as u8, (v % 256) as u8]
}

/// The two bytes of a value, least significant first.
pub open spec fn le_bytes(v: u16) -> Seq<u8> {
    seq![(v % 256) as u8, (v / 256) as u8]
}

/// The two bytes of a value give the value back in either order, bit for
/// bit: codes survive the wire.
pub proof fn lemma_bytes_round_trip(v: u16)
    ensures
        be_bytes(v).len() == 2,
        le_bytes(v).len() == 2,
        be_bytes(v)[0] * 256 + be_bytes(v)[1] == v,
        le_bytes(v)[1] * 256 + le_bytes(v)[0] == v,
{
}

/// `LightningEncode::lightning_serialize` on a `u16`: written into a fresh
/// vector, which cannot fail, as two bytes in big-endian order.
#[verifier::external_body]
fn lightning_u16(v: u16) -> (r: Option<Vec<u8>>)
    ensures
        r is Some,
        r matches Some(bytes) ==> bytes@ == be_bytes(v),
{
    v.lightning_serialize().ok()
}

/// `LightningDecode::lightning_decode` for `u16` on a byte slice: reads the
/// first two bytes as a big-endian number, and fails where there are fewer.
#[verifier::external_body]
fn lightning_u16_from(bytes: &[u8]) -> (r: Result<u16, lightning_encoding::Error>)
    ensures
        r is Ok <==> bytes@.len() >= 2,
        r matches Ok(v) ==> v == bytes@[0] * 256 + bytes@[1],
{
    u16::lightning_decode(bytes)
}

/// `StrictEncode::strict_serialize` on a `u16`: written into a fresh
/// vector, which cannot fail, as two bytes in little-endian order.
#[verifier::external_body]
fn strict_u16(v: u16) -> (r: Option<Vec<u8>>)
    ensures
        r is Some,
        r matches Some(bytes) ==> bytes@ == le_bytes(v),
{
    v.strict_serialize().ok()
}

/// `StrictDecode::strict_decode` for `u16` on a byte slice: reads the first
/// two bytes as a little-endian number, and fails where there are fewer.
#[verifier::external_body]
fn strict_u16_from(bytes: &[u8]) -> (r: Result<u16, strict_encoding::Error>)
    ensures
        r is Ok <==> bytes@.len() >= 2,
        r matches Ok(v) ==> v == bytes@[1] * 256 + bytes@[0],
{
    u16::strict_decode(bytes)
}

/// Mask that keeps the twelve low bits open to service-specific codes.
pub const EXT_MASK: u16 = 0x0FFF;

/// Service-specific failure codes, representable as `u16`.
///
/// Only the low twelve bits of the representation are ever emitted: the
/// bands `0x1000..=0xFFFF` belong to the framework.
pub trait FailureCodeExt: Copy + Eq + Ord + Hash + Debug + Into<u16> + From<u16> {

}

/// Symbolic representation of a failure code returned by a server.
#[derive(Clone, Copy, PartialEq, Eq, PartialOrd, Ord, Hash, Debug)]
pub enum FailureCode<Ext: FailureCodeExt> {
    /// Presentation-level errors (encoding, TLV)
    Presentation,
    /// Transport-level errors (encryption, connectivity)
    Transport,
    /// Error in packet framing
    Framing,
    /// Request from the client is not supported by the server
    UnexpectedRequest,
    /// Server runtime error
    Runtime,
    /// Other service-specific error types
    Other(Ext),
}

impl<Ext: FailureCodeExt> FailureCode<Ext> {
    /// The wire value of a code.
    pub open spec fn code(self) -> u16 {
        match self {
            FailureCode::Presentation => 0x1000,
            FailureCode::Transport => 0x2000,
            FailureCode::Framing => 0x3000,
            FailureCode::UnexpectedRequest => 0x4000,
            FailureCode::Runtime => 0x5000,
            FailureCode::Other(ext) => <Ext as IntoSpec<u16>>::into_spec(ext) & EXT_MASK,
        }
    }

    /// Maps a code to its wire value.
    pub fn to_u16(self) -> (value: u16)
        ensures
            <Ext as IntoSpec<u16>>::obeys_into_spec() ==> value == self.code(),
            !(self is Other) ==> value == self.code(),
            self is Other ==> value <= EXT_MASK,
            self matches FailureCode::Other(ext) ==> exists|raw: u16| #[trigger]
                call_ensures(<Ext as Into<u16>>::into, (ext,), raw) && value == raw & EXT_MASK,
    {
        match self {
            FailureCode::Presentation => 0x1000,
            FailureCode::Transport => 0x2000,
            FailureCode::Framing => 0x3000,
            FailureCode::UnexpectedRequest => 0x4000,
            FailureCode::Runtime => 0x5000,
            FailureCode::Other(ext) => {
                let raw: u16 = ext.into();
                assert(raw & 0x0FFF <= 0x0FFF) by (bit_vector);
                raw & EXT_MASK
            },
        }
    }
}

impl<Ext: FailureCodeExt> FailureCode<Ext> {
    /// Whether a wire value is one of the reserved band constants.
    pub open spec fn is_band(value: u16) -> bool {
        value == 0x1000 || value == 0x2000 || value == 0x3000 || value == 0x4000 || value
            == 0x5000
    }

    /// The code that a wire value stands for: the reserved bands first, and
    /// everything else in the extension space.
    pub open spec fn of_code(value: u16) -> Self {
        if value == 0x1000 {
            FailureCode::Presentation
        } else if value == 0x2000 {
            FailureCode::Transport
        } else if value == 0x3000 {
            FailureCode::Framing
        } else if value == 0x4000 {
            FailureCode::UnexpectedRequest
        } else if value == 0x5000 {
            FailureCode::Runtime
        } else {
            FailureCode::Other(Ext::from_spec(value))
        }
    }

    /// Reads a code from its wire value.
    pub fn from_u16(value: u16) -> (code: Self)
        ensures
            Ext::obeys_from_spec() ==> code == Self::of_code(value),
            Self::is_band(value) ==> code == Self::of_code(value),
            code is Other <==> !Self::is_band(value),
            code is Other ==> call_ensures(<Ext as From<u16>>::from, (value,), code->Other_0),
    {
        if value == 0x1000 {
            FailureCode::Presentation
        } else if value == 0x2000 {
            FailureCode::Transport
        } else if value == 0x3000 {
            FailureCode::Framing
        } else if value == 0x4000 {
            FailureCode::UnexpectedRequest
        } else if value == 0x5000 {
            FailureCode::Runtime
        } else {
            FailureCode::Other(Ext::from(value))
        }
    }

    /// An extension code never leaves the low twelve bits, and a reserved
    /// code is exactly its band constant: the top four bits tell the band.
    pub proof fn lemma_code_band(self)
        ensures
            self is Other ==> self.code() <= EXT_MASK && !Self::is_band(self.code()),
            !(self is Other) ==> Self::is_band(self.code()) && self.code() & EXT_MASK == 0,
            self is Other <==> self.code() >> 12 == 0,
    {
        let v = self.code();
        if let FailureCode::Other(ext) = self {
            let raw = <Ext as IntoSpec<u16>>::into_spec(ext);
            assert(raw & 0x0FFF <= 0x0FFF && (raw & 0x0FFF) >> 12 == 0) by (bit_vector);
        } else {
            assert(0x1000u16 & 0x0FFF == 0 && 0x2000u16 & 0x0FFF == 0 && 0x3000u16 & 0x0FFF == 0
                && 0x4000u16 & 0x0FFF == 0 && 0x5000u16 & 0x0FFF == 0) by (bit_vector);
            assert(0x1000u16 >> 12 == 1 && 0x2000u16 >> 12 == 2 && 0x3000u16 >> 12 == 3
                && 0x4000u16 >> 12 == 4 && 0x5000u16 >> 12 == 5) by (bit_vector);
        }
    }

    /// Every reserved code reads back from its wire value as itself.
    pub proof fn lemma_round_trip_reserved(self)
        requires
            !(self is Other),
        ensures
            Self::of_code(self.code()) == self,
    {
    }

    /// An extension code within the low twelve bits reads back from its
    /// wire value as itself, for an extension type whose conversions to
    /// and from `u16` undo each other.
    pub proof fn lemma_round_trip_other(ext: Ext)
        requires
            <Ext as IntoSpec<u16>>::into_spec(ext) <= EXT_MASK,
            Ext::from_spec(<Ext as IntoSpec<u16>>::into_spec(ext)) == ext,
        ensures
            Self::of_code(FailureCode::Other(ext).code()) == FailureCode::Other(ext),
    {
        let raw = <Ext as IntoSpec<u16>>::into_spec(ext);
        assert(raw & 0x0FFF == raw) by (bit_vector)
            requires
                raw <= 0x0FFF,
        ;
    }
}

impl<Ext: FailureCodeExt> FailureCode<Ext> {
    /// The text of a code: `0x` and the four digits of its wire value.
    pub open spec fn text(self) -> Seq<char> {
        seq!['0', 'x'] + u16_digits(self.code())
    }

    /// What a text reads as: the code of its base-16 value.
    pub open spec fn parse(s: Seq<char>) -> Result<Self, ParseHexError> {
        match parse_u16(s) {
            Ok(value) => Ok(Self::of_code(value)),
            Err(e) => Err(e),
        }
    }

    /// Renders the code as `0x` followed by four lower-case hexadecimal
    /// digits.
    pub fn to_string(&self) -> (s: String)
        ensures
            <Ext as IntoSpec<u16>>::obeys_into_spec() || !(self is Other) ==> s@ == self.text(),
            s@.len() == 6,
    {
        let digits = u16_to_hex(self.to_u16());
        let s = String::from_str("0x").concat(digits.as_str());
        proof {
            reveal_strlit("0x");
            assert("0x"@ =~= seq!['0', 'x']);
        }
        s
    }

    /// Reads a code from base-16 text without a prefix.
    pub fn from_str(s: &str) -> (r: Result<Self, ParseHexError>)
        ensures
            r is Ok <==> parse_u16(s@) is Ok,
            r matches Err(e) ==> parse_u16(s@) == Err::<u16, ParseHexError>(e),
            r matches Ok(code) ==> (Ext::obeys_from_spec() || Self::is_band(parse_u16(s@)->Ok_0)
                ==> Ok::<Self, ParseHexError>(code) == Self::parse(s@)),
    {
        match u16_from_hex(s) {
            Ok(value) => Ok(Self::from_u16(value)),
            Err(e) => Err(e),
        }
    }

    /// The code in lightning encoding: its wire value in two bytes, most
    /// significant first.
    pub fn lightning_encode(&self) -> (bytes: Vec<u8>)
        ensures
            <Ext as IntoSpec<u16>>::obeys_into_spec() || !(self is Other) ==> bytes@ == be_bytes(
                self.code(),
            ),
            bytes@.len() == 2,
    {
        match lightning_u16(self.to_u16()) {
            Some(bytes) => bytes,
            None => unreached(),
        }
    }

    /// Reads a code from the first two bytes of lightning-encoded data.
    pub fn lightning_decode(bytes: &[u8]) -> (r: Result<Self, lightning_encoding::Error>)
        ensures
            r is Ok <==> bytes@.len() >= 2,
            r matches Ok(code) ==> {
                let value = (bytes@[0] * 256 + bytes@[1]) as u16;
                &&& code is Other <==> !Self::is_band(value)
                &&& Ext::obeys_from_spec() || Self::is_band(value) ==> code == Self::of_code(
                    value,
                )
            },
    {
        match lightning_u16_from(bytes) {
            Ok(value) => Ok(Self::from_u16(value)),
            Err(e) => Err(e),
        }
    }

    /// The code in strict encoding: its wire value in two bytes, least
    /// significant first.
    pub fn strict_encode(&self) -> (bytes: Vec<u8>)
        ensures
            <Ext as IntoSpec<u16>>::obeys_into_spec() || !(self is Other) ==> bytes@ == le_bytes(
                self.code(),
            ),
            bytes@.len() == 2,
    {
        match strict_u16(self.to_u16()) {
            Some(bytes) => bytes,
            None => unreached(),
        }
    }

    /// Reads a code from the first two bytes of strict-encoded data.
    pub fn strict_decode(bytes: &[u8]) -> (r: Result<Self, strict_encoding::Error>)
        ensures
            r is Ok <==> bytes@.len() >= 2,
            r matches Ok(code) ==> {
                let value = (bytes@[1] * 256 + bytes@[0]) as u16;
                &&& code is Other <==> !Self::is_band(value)
                &&& Ext::obeys_from_spec() || Self::is_band(value) ==> code == Self::of_code(
                    value,
                )
            },
    {
        match strict_u16_from(bytes) {
            Ok(value) => Ok(Self::from_u16(value)),
            Err(e) => Err(e),
        }
    }

    /// The text of a code reads back, without its `0x`, as the code, for
    /// every reserved code and for every extension code that survives the
    /// conversions of its type.
    pub proof fn lemma_text_round_trip(self)
        requires
            self matches FailureCode::Other(ext) ==> <Ext as IntoSpec<u16>>::into_spec(ext)
                <= EXT_MASK && Ext::from_spec(<Ext as IntoSpec<u16>>::into_spec(ext)) == ext,
        ensures
            Self::parse(self.text().skip(2)) == Ok::<Self, ParseHexError>(self),
    {
        crate::hex::lemma_parse_u16_digits(self.code());
        assert(self.text().skip(2) =~= u16_digits(self.code()));
        if let FailureCode::Other(ext) = self {
            Self::lemma_round_trip_other(ext);
        }
    }
}

/// A raw twelve-bit extension code, for services that number their failures
/// without an enum of their own.
#[derive(Clone, Copy, PartialEq, Eq, PartialOrd, Ord, Hash, Debug)]
pub struct ExtCode(pub u16);

impl From<u16> for ExtCode {
    fn from(value: u16) -> (code: Self) {
        ExtCode(value)
    }
}

impl FromSpecImpl<u16> for ExtCode {
    open spec fn obeys_from_spec() -> bool {
        true
    }

    open spec fn from_spec(value: u16) -> Self {
        ExtCode(value)
    }
}

impl From<ExtCode> for u16 {
    fn from(code: ExtCode) -> (value: Self) {
        code.0
    }
}

impl FromSpecImpl<ExtCode> for u16 {
    open spec fn obeys_from_spec() -> bool {
        true
    }

    open spec fn from_spec(code: ExtCode) -> Self {
        code.0
    }
}

impl FailureCodeExt for ExtCode {

}

/// Information about a server-side failure returned through the RPC API.
#[derive(Clone, PartialEq, Eq, Hash, Debug)]
pub struct Failure<Ext: FailureCodeExt> {
    /// Failure code
    pub code: FailureCode<Ext>,
    /// Detailed information about the failure
    pub info: String,
}

impl<Ext: FailureCodeExt> Failure<Ext> {
    /// The text of a failure: `server failure #`, the code, a space, and
    /// the details.
    pub open spec fn text(self) -> Seq<char> {
        "server failure #"@ + self.code.text() + seq![' '] + self.info@
    }

    /// Renders the failure as `server failure #<code> <info>`.
    pub fn to_string(&self) -> (s: String)
        ensures
            <Ext as IntoSpec<u16>>::obeys_into_spec() || !(self.code is Other) ==> s@
                == self.text(),
    {
        let code = self.code.to_string();
        let s = String::from_str("server failure #").concat(code.as_str()).concat(" ").concat(
            self.info.as_str(),
        );
        proof {
            reveal_strlit(" ");
            assert(" "@ =~= seq![' ']);
        }
        s
    }

    /// The failure on the wire: the code in two bytes, most significant
    /// first, then the length of the details in variable-size form, then
    /// the bytes of the details.
    pub open spec fn wire(self) -> Seq<u8> {
        be_bytes(self.code.code()) + big_size(encode_utf8(self.info@).len()) + encode_utf8(
            self.info@,
        )
    }

    /// A failure reads back from its wire form: the first two bytes give
    /// its code, and the rest is a length and just the bytes of its
    /// details, which decode to the details.
    pub proof fn lemma_wire_round_trip(self)
        requires
            encode_utf8(self.info@).len() <= u64::MAX,
        ensures
            ({
                let w = self.wire();
                let rest = w.subrange(2, w.len() as int);
                &&& w.len() >= 2
                &&& w[0] * 256 + w[1] == self.code.code()
                &&& framed(rest)
                &&& payload(rest) == encode_utf8(self.info@)
                &&& valid_utf8(payload(rest))
                &&& decode_utf8(payload(rest)) == self.info@
            }),
    {
        broadcast use vstd::utf8::encode_utf8_valid_utf8, vstd::utf8::encode_utf8_decode_utf8;

        let text = encode_utf8(self.info@);
        let n = text.len();
        let w = self.wire();
        let rest = w.subrange(2, w.len() as int);
        lemma_bytes_round_trip(self.code.code());
        lemma_big_size_declared(n, text);
        assert(rest =~= big_size(n) + text);
        assert(payload(rest) =~= text);
    }

    /// Writes the failure as it goes over the wire.
    pub fn serialize(&self) -> (r: Option<Vec<u8>>)
        ensures
            r is Some,
            <Ext as IntoSpec<u16>>::obeys_into_spec() || !(self.code is Other) ==> (r matches Some(
                bytes,
            ) ==> bytes@ == self.wire()),
    {
        let mut bytes = self.code.lightning_encode();
        match lightning_string(&self.info) {
            Some(mut text) => {
                bytes.append(&mut text);
                assert(bytes@ =~= be_bytes(self.code.code()) + big_size(
                    encode_utf8(self.info@).len(),
                ) + encode_utf8(self.info@) || !(<Ext as IntoSpec<u16>>::obeys_into_spec() || !(
                self.code is Other)));
                Some(bytes)
            },
            None => unreached(),
        }
    }

    /// Reads a failure from the wire: the code from the first two bytes,
    /// the details from the rest, which must be a length and just as many
    /// bytes after it. Bytes that are no UTF-8 read as the replacement
    /// character.
    pub fn deserialize(bytes: &[u8]) -> (r: Result<Self, WireError>)
        ensures
            r matches Err(e) ==> (e is Code <==> bytes@.len() < 2),
            r is Ok <==> bytes@.len() >= 2 && framed(bytes@.subrange(2, bytes@.len() as int)),
            r matches Ok(failure) ==> {
                let value = (bytes@[0] * 256 + bytes@[1]) as u16;
                let text = payload(bytes@.subrange(2, bytes@.len() as int));
                &&& failure.info@ == if valid_utf8(text) {
                    decode_utf8(text)
                } else {
                    utf8_lossy(text)
                }
                &&& failure.code is Other <==> !FailureCode::<Ext>::is_band(value)
                &&& Ext::obeys_from_spec() || FailureCode::<Ext>::is_band(value) ==> failure.code
                    == FailureCode::<Ext>::of_code(value)
            },
    {
        match FailureCode::lightning_decode(bytes) {
            Err(_) => Err(WireError::Code),
            Ok(code) => {
                let rest = vstd::slice::slice_subrange(bytes, 2, bytes.len());
                match declared_len(rest) {
                    None => Err(WireError::Length),
                    Some((n, k)) => {
                        if n != (rest.len() - k) as u64 {
                            return Err(WireError::Length);
                        }
                        match lightning_string_from(rest) {
                            Some(info) => Ok(Failure { code, info }),
                            None => unreached(),
                        }
                    },
                }
            },
        }
    }

    /// The failure that reports a presentation error whose text is given:
    /// its code is `Presentation`, its details are the text.
    pub fn from_presentation(info: String) -> (failure: Self)
        ensures
            failure.code == FailureCode::<Ext>::Presentation,
            failure.info == info,
    {
        Failure { info, code: FailureCode::Presentation }
    }
}

/// Why bytes from the wire are no failure.
#[derive(Clone, Copy, Debug, PartialEq, Eq, Structural)]
pub enum WireError {
    /// There are fewer than the two bytes of the code.
    Code,
    /// The details are not a length in its shortest form and just as many
    /// bytes after it.
    Length,
}

/// Errors with RPC requests received by the server, which originate from
/// the client connection.
#[derive(Clone, Debug)]
pub enum ClientError {
    /// unexpected client request
    UnexpectedRequest,
    /// Message serialization or structure error.
    Presentation(internet2::presentation::Error),
    /// Transport-level protocol error.
    Transport(internet2::transport::Error),
}

impl ClientError {
    /// A presentation error as a client error: the transport error inside
    /// it where it wraps one, and the presentation error itself otherwise.
    pub fn from_presentation(err: internet2::presentation::Error) -> (e: Self)
        ensures
            e == match transport_cause(err) {
                Some(cause) => ClientError::Transport(cause),
                None => ClientError::Presentation(err),
            },
    {
        match take_transport(err) {
            Ok(cause) => ClientError::Transport(cause),
            Err(other) => ClientError::Presentation(other),
        }
    }
}

/// Errors with RPC requests on the server side, as the client sees them.
#[derive(Clone, Debug)]
pub enum ServerError<Ext: FailureCodeExt> {
    /// unexpected server response
    UnexpectedServerResponse,
    /// Server failure
    ServerFailure(Failure<Ext>),
    /// Message serialization or structure error.
    Presentation(internet2::presentation::Error),
    /// Transport-level protocol error.
    Transport(internet2::transport::Error),
    /// provided RPC endpoint is unknown
    UnknownEndpoint(String),
}

impl<Ext: FailureCodeExt> ServerError<Ext> {
    /// A presentation error as a server error: the transport error inside
    /// it where it wraps one, and the presentation error itself otherwise.
    pub fn from_presentation(err: internet2::presentation::Error) -> (e: Self)
        ensures
            e == match transport_cause(err) {
                Some(cause) => ServerError::<Ext>::Transport(cause),
                None => ServerError::<Ext>::Presentation(err),
            },
    {
        match take_transport(err) {
            Ok(cause) => ServerError::Transport(cause),
            Err(other) => ServerError::Presentation(other),
        }
    }
}

} // verus!
