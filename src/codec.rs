//! Decoding of handler arguments from the parameter bytes of call data, and
//! encoding of the values an execution returns with.
//!
//! Argument types implement `DecodeInput`, returned types `EncodeOutput`;
//! the coding itself is the parity-codec one, which writes fixed-width
//! integers in little-endian order, and reads them from the front of the
//! input, ignoring what follows.
use vstd::prelude::*;
use crate::call_data::le_u32;

verus! {

/// The little-endian value of the first eight bytes of `s`.
pub open spec fn le_u64(s: Seq<u8>) -> int
    recommends
        s.len() >= 8,
{
    le_u32(s) + 4294967296 * le_u32(s.subrange(4, 8))
}

/// Types that a message handler can take as its decoded input.
pub trait DecodeInput: Sized {
    /// The value decoded from `bytes`, or `None` where they do not hold one.
    spec fn spec_decode(bytes: Seq<u8>) -> Option<Self>;

    /// Decodes a value from the front of `bytes`.
    fn decode_input(bytes: &[u8]) -> (r: Option<Self>)
        ensures
            r == Self::spec_decode(bytes@),
    ;
}

/// Relies on parity-codec's `Decode` for `()`: it reads nothing and always succeeds.
#[verifier::external_body]
fn decode_unit(bytes: &[u8]) -> (r: Option<()>)
    ensures
        r == Some(()),
{
    <() as parity_codec::Decode>::decode(&mut &bytes[..])
}

/// Relies on parity-codec's `Decode` for `u32`: it reads the first four bytes
/// as a little-endian integer, and fails when fewer than four are there.
#[verifier::external_body]
fn decode_u32(bytes: &[u8]) -> (r: Option<u32>)
    ensures
        bytes@.len() >= 4 ==> r == Some(le_u32(bytes@) as u32),
        bytes@.len() < 4 ==> r is None,
{
    <u32 as parity_codec::Decode>::decode(&mut &bytes[..])
}

/// Relies on parity-codec's `Decode` for `u64`: it reads the first eight bytes
/// as a little-endian integer, and fails when fewer than eight are there.
#[verifier::external_body]
fn decode_u64(bytes: &[u8]) -> (r: Option<u64>)
    ensures
        bytes@.len() >= 8 ==> r == Some(le_u64(bytes@) as u64),
        bytes@.len() < 8 ==> r is None,
{
    <u64 as parity_codec::Decode>::decode(&mut &bytes[..])
}

impl DecodeInput for () {
    open spec fn spec_decode(bytes: Seq<u8>) -> Option<()> {
        Some(())
    }

    fn decode_input(bytes: &[u8]) -> (r: Option<()>) {
        decode_unit(bytes)
    }
}

impl DecodeInput for u32 {
    open spec fn spec_decode(bytes: Seq<u8>) -> Option<u32> {
        if bytes.len() >= 4 {
            Some(le_u32(bytes) as u32)
        } else {
            None
        }
    }

    fn decode_input(bytes: &[u8]) -> (r: Option<u32>) {
        decode_u32(bytes)
    }
}

impl DecodeInput for u64 {
    open spec fn spec_decode(bytes: Seq<u8>) -> Option<u64> {
        if bytes.len() >= 8 {
            Some(le_u64(bytes) as u64)
        } else {
            None
        }
    }

    fn decode_input(bytes: &[u8]) -> (r: Option<u64>) {
        decode_u64(bytes)
    }
}

/// The four little-endian bytes of `v`.
pub open spec fn le_bytes_u32(v: u32) -> Seq<u8> {
    seq![
        (v % 256) as u8,
        ((v / 256) % 256) as u8,
        ((v / 65536) % 256) as u8,
        ((v / 16777216) % 256) as u8,
    ]
}

/// The eight little-endian bytes of `v`.
pub open spec fn le_bytes_u64(v: u64) -> Seq<u8> {
    le_bytes_u32((v % 4294967296) as u32) + le_bytes_u32((v / 4294967296) as u32)
}

/// Types whose values an execution can return with.
pub trait EncodeOutput: Sized {
    /// The encoding of `self`.
    spec fn spec_encode(&self) -> Seq<u8>;

    /// Encodes `self`.
    fn encode_output(&self) -> (r: Vec<u8>)
        ensures
            r@ == self.spec_encode(),
    ;
}

/// Relies on parity-codec's `Encode` for `()`: the encoding is empty.
#[verifier::external_body]
fn encode_unit(v: &()) -> (r: Vec<u8>)
    ensures
        r@ == Seq::<u8>::empty(),
{
    parity_codec::Encode::encode(v)
}

/// Relies on parity-codec's `Encode` for `u32`: its four bytes, least
/// significant first.
#[verifier::external_body]
fn encode_u32(v: &u32) -> (r: Vec<u8>)
    ensures
        r@ == le_bytes_u32(*v),
{
    parity_codec::Encode::encode(v)
}

/// Relies on parity-codec's `Encode` for `u64`: its eight bytes, least
/// significant first.
#[verifier::external_body]
fn encode_u64(v: &u64) -> (r: Vec<u8>)
    ensures
        r@ == le_bytes_u64(*v),
{
    parity_codec::Encode::encode(v)
}

impl EncodeOutput for () {
    open spec fn spec_encode(&self) -> Seq<u8> {
        Seq::empty()
    }

    fn encode_output(&self) -> (r: Vec<u8>) {
        encode_unit(self)
    }
}

impl EncodeOutput for u32 {
    open spec fn spec_encode(&self) -> Seq<u8> {
        le_bytes_u32(*self)
    }

    fn encode_output(&self) -> (r: Vec<u8>) {
        encode_u32(self)
    }
}

impl EncodeOutput for u64 {
    open spec fn spec_encode(&self) -> Seq<u8> {
        le_bytes_u64(*self)
    }

    fn encode_output(&self) -> (r: Vec<u8>) {
        encode_u64(self)
    }
}

} // verus!
