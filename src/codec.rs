use vstd::prelude::*;
use vstd::utf8::encode_utf8;
use crate::address::AccountAddress;

verus! {

/// The longest sequence that the canonical encoding admits.
pub const MAX_SEQUENCE_LENGTH: usize = 0x7fff_ffff;

/// Unsigned LEB128: seven bits per byte, least significant group first, the
/// high bit set on every byte but the last.
pub open spec fn uleb128(n: nat) -> Seq<u8>
    decreases n,
{
    if n < 128 {
        seq![n as u8]
    } else {
        seq![((n % 128) + 128) as u8] + uleb128(n / 128)
    }
}

/// The eight little-endian bytes of a `u64`.
pub open spec fn le_u64(v: u64) -> Seq<u8> {
    seq![
        (v % 0x100) as u8,
        ((v / 0x100) % 0x100) as u8,
        ((v / 0x1_0000) % 0x100) as u8,
        ((v / 0x100_0000) % 0x100) as u8,
        ((v / 0x1_0000_0000) % 0x100) as u8,
        ((v / 0x100_0000_0000) % 0x100) as u8,
        ((v / 0x1_0000_0000_0000) % 0x100) as u8,
        ((v / 0x100_0000_0000_0000) % 0x100) as u8,
    ]
}

/// A byte string: its length, then its bytes.
pub open spec fn bytes_encoding(b: Seq<u8>) -> Seq<u8> {
    uleb128(b.len()) + b
}

/// A text string is encoded as the byte string of its UTF-8 form.
pub open spec fn str_encoding(s: Seq<char>) -> Seq<u8> {
    bytes_encoding(encode_utf8(s))
}

/// The strings of a list, each encoded, one after another.
pub open spec fn strs_body(ss: Seq<Seq<char>>) -> Seq<u8>
    decreases ss.len(),
{
    if ss.len() == 0 {
        Seq::empty()
    } else {
        strs_body(ss.drop_last()) + str_encoding(ss.last())
    }
}

/// The integers of a list, each in eight bytes, one after another.
pub open spec fn u64s_body(vs: Seq<u64>) -> Seq<u8>
    decreases vs.len(),
{
    if vs.len() == 0 {
        Seq::empty()
    } else {
        u64s_body(vs.drop_last()) + le_u64(vs.last())
    }
}

pub open spec fn bool_encoding(b: bool) -> Seq<u8> {
    if b { seq![1u8] } else { seq![0u8] }
}

pub open spec fn option_u64_encoding(o: Option<u64>) -> Seq<u8> {
    match o {
        Some(v) => seq![1u8] + le_u64(v),
        None => seq![0u8],
    }
}

pub open spec fn str_list_encoding(ss: Seq<Seq<char>>) -> Seq<u8> {
    uleb128(ss.len()) + strs_body(ss)
}

pub open spec fn u64_list_encoding(vs: Seq<u64>) -> Seq<u8> {
    uleb128(vs.len()) + u64s_body(vs)
}

/// Relies on bcs::to_bytes: a fixed array of 32 bytes is written as those
/// bytes, with no length, and cannot fail.
#[verifier::external_body]
pub fn encode_address(a: &AccountAddress) -> (r: Vec<u8>)
    ensures
        r@ == a.bytes@,
{
    bcs::to_bytes(&a.bytes).unwrap()
}

/// Relies on bcs::to_bytes: a boolean is the single byte 1 or 0.
#[verifier::external_body]
pub fn encode_bool(b: bool) -> (r: Vec<u8>)
    ensures
        r@ == bool_encoding(b),
{
    bcs::to_bytes(&b).unwrap()
}

/// Relies on bcs::to_bytes: a string is the ULEB128 length of its UTF-8
/// bytes and then those bytes; it fails only beyond the longest sequence.
#[verifier::external_body]
pub fn encode_str(s: &str) -> (r: Vec<u8>)
    requires
        encode_utf8(s@).len() <= MAX_SEQUENCE_LENGTH,
    ensures
        r@ == str_encoding(s@),
{
    bcs::to_bytes(s).unwrap()
}

/// Relies on bcs::to_bytes: a vector of strings is its ULEB128 length and
/// then each string encoded in turn.
#[verifier::external_body]
pub fn encode_str_list(v: &Vec<&str>) -> (r: Vec<u8>)
    requires
        v@.len() <= MAX_SEQUENCE_LENGTH,
        forall|i: int| 0 <= i < v@.len() ==> encode_utf8(#[trigger] v@[i]@).len() <= MAX_SEQUENCE_LENGTH,
    ensures
        r@ == str_list_encoding(v@.map_values(|s: &str| s@)),
{
    bcs::to_bytes(v).unwrap()
}

/// Relies on bcs::to_bytes: a vector of `u64` is its ULEB128 length and
/// then each value in eight little-endian bytes.
#[verifier::external_body]
pub fn encode_u64_list(v: &Vec<u64>) -> (r: Vec<u8>)
    requires
        v@.len() <= MAX_SEQUENCE_LENGTH,
    ensures
        r@ == u64_list_encoding(v@),
{
    bcs::to_bytes(v).unwrap()
}

/// Relies on bcs::to_bytes: an absent option is the byte 0, a present one
/// the byte 1 followed by its value.
#[verifier::external_body]
pub fn encode_option_u64(o: Option<u64>) -> (r: Vec<u8>)
    ensures
        r@ == option_u64_encoding(o),
{
    bcs::to_bytes(&o).unwrap()
}

/// What an event payload of two addresses and a flag holds.
pub struct AddressPairFlag {
    pub first: AccountAddress,
    pub second: AccountAddress,
    pub flag: bool,
}

/// Relies on bcs::from_bytes for `([u8; 32], [u8; 32], bool)`: it succeeds
/// exactly on 65 bytes whose last is 0 or 1, and reads the fields in order.
#[verifier::external_body]
pub fn decode_address_pair_flag(data: &Vec<u8>) -> (r: Option<AddressPairFlag>)
    ensures
        r is Some <==> (data@.len() == 65 && data@[64] <= 1),
        r matches Some(v) ==> v.first.bytes@ == data@.subrange(0, 32)
            && v.second.bytes@ == data@.subrange(32, 64) && v.flag == (data@[64] == 1),
{
    bcs::from_bytes::<([u8; 32], [u8; 32], bool)>(data).ok().map(
        |t| AddressPairFlag { first: AccountAddress { bytes: t.0 }, second: AccountAddress { bytes: t.1 }, flag: t.2 },
    )
}

/// Relies on bcs::from_bytes for `([u8; 32], u64, [u8; 32])`: it succeeds
/// exactly on 72 bytes; the third field is the last 32 bytes.
#[verifier::external_body]
pub fn decode_address_index_address(data: &Vec<u8>) -> (r: Option<AccountAddress>)
    ensures
        r is Some <==> data@.len() == 72,
        r matches Some(a) ==> a.bytes@ == data@.subrange(40, 72),
{
    bcs::from_bytes::<([u8; 32], u64, [u8; 32])>(data).ok().map(|t| AccountAddress { bytes: t.2 })
}

/// Relies on bcs::from_bytes for `([u8; 32], u64, [u8; 32], [u8; 32])`: it
/// succeeds exactly on 104 bytes; the third field is bytes 40 to 72.
#[verifier::external_body]
pub fn decode_address_index_two_addresses(data: &Vec<u8>) -> (r: Option<AccountAddress>)
    ensures
        r is Some <==> data@.len() == 104,
        r matches Some(a) ==> a.bytes@ == data@.subrange(40, 72),
{
    bcs::from_bytes::<([u8; 32], u64, [u8; 32], [u8; 32])>(data).ok().map(
        |t| AccountAddress { bytes: t.2 },
    )
}

} // verus!
