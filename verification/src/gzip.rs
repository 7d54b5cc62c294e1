//! Decoding a gzip asset in memory.
//!
//! The DEFLATE decoder is flate2's. This module calls it, and holds its answer
//! against the size that the gzip member records about itself.

use std::io::Read;
use vstd::prelude::*;

verus! {

/// `std::io::Error`, the error of flate2's decoders. It is carried through as
/// it comes; only its description is read.
#[verifier::external_type_specification]
#[verifier::external_body]
pub struct ExIoError(std::io::Error);

/// What flate2's single-member gzip decoder makes of `bytes`: `None` where it
/// rejects them, else the decompressed payload of the first member and the
/// number of input bytes that follow that member.
pub uninterp spec fn gzip_member(bytes: Seq<u8>) -> Option<(Seq<u8>, nat)>;

/// The little-endian number in the last four bytes of `member`: the field in
/// which a gzip member records the size of its payload, modulo 2^32.
pub open spec fn recorded_size(member: Seq<u8>) -> nat
    recommends
        member.len() >= 4,
{
    let end = member.len() as int;
    (member[end - 4] as nat) + 0x100 * (member[end - 3] as nat) + 0x1_0000 * (member[end
        - 2] as nat) + 0x100_0000 * (member[end - 1] as nat)
}

/// A member that ends `rest` bytes before the end of `bytes` records the size
/// of a payload of `size` bytes.
pub open spec fn size_agrees(bytes: Seq<u8>, size: nat, rest: nat) -> bool {
    &&& rest + 8 <= bytes.len()
    &&& recorded_size(bytes.take(bytes.len() - rest)) == size % 0x1_0000_0000
}

/// What `inflate` makes of `bytes`: the member that the decoder finds in them,
/// if it finds one and the member's size field agrees with its payload.
pub open spec fn inflated_from(bytes: Seq<u8>) -> Option<InflatedView> {
    match gzip_member(bytes) {
        Some((payload, rest)) => if size_agrees(bytes, payload.len(), rest) {
            Some(InflatedView { data: payload, rest })
        } else {
            None
        },
        None => None,
    }
}

/// Runs `flate2::bufread::GzDecoder` over `bytes` until it reports the end of
/// the member (`read_to_end`), then takes the unread input back from it
/// (`into_inner`) and returns the payload with the length of that remainder.
///
/// Trusted: whether the run succeeds, and what it then returns, depend on
/// `bytes` alone (a machine that cannot hold the payload in memory aside).
#[verifier::external_body]
fn read_member(bytes: &[u8]) -> (outcome: Result<(Vec<u8>, usize), std::io::Error>)
    ensures
        match outcome {
            Ok((payload, rest)) => gzip_member(bytes@) == Some((payload@, rest as nat)),
            Err(_) => gzip_member(bytes@) is None,
        },
{
    let mut decoder = flate2::bufread::GzDecoder::new(bytes);
    let mut payload = Vec::new();
    match decoder.read_to_end(&mut payload) {
        Ok(_) => Ok((payload, decoder.into_inner().len())),
        Err(error) => Err(error),
    }
}

/// The size field of a gzip member that ends at offset `end` of `bytes`, if
/// `end` is an offset of `bytes` with four bytes before it.
pub fn size_field(bytes: &[u8], end: usize) -> (field: Option<u32>)
    ensures
        field is Some <==> 4 <= end <= bytes@.len(),
        field matches Some(size) ==> size == recorded_size(bytes@.take(end as int)),
{
    if end < 4 || end > bytes.len() {
        return None;
    }
    let low: u32 = bytes[end - 4] as u32 + 0x100 * (bytes[end - 3] as u32);
    let high: u32 = bytes[end - 2] as u32 + 0x100 * (bytes[end - 1] as u32);
    Some(low + 0x1_0000 * high)
}

/// A decoded gzip member.
#[derive(Debug, PartialEq, Eq)]
pub struct Inflated {
    /// The decompressed payload.
    pub data: Vec<u8>,
    /// How many bytes of the input follow the member.
    pub rest: usize,
}

/// A decoded member as contracts see it.
pub struct InflatedView {
    pub data: Seq<u8>,
    pub rest: nat,
}

impl View for Inflated {
    type V = InflatedView;

    open spec fn view(&self) -> InflatedView {
        InflatedView { data: self.data@, rest: self.rest as nat }
    }
}

/// Decompresses the gzip member that `bytes` starts with.
///
/// It succeeds exactly on the bytes that the decoder accepts and whose size
/// field agrees with the payload, and then returns that member. An error
/// carries the decoder's description of the fault, or `SIZE_MISMATCH`. Where
/// `bytes` is one member and no more, with a payload shorter than 2^32 bytes,
/// the payload has exactly the length that the last four bytes record.
pub fn inflate(bytes: &[u8]) -> (outcome: Result<Inflated, String>)
    ensures
        match outcome {
            Ok(inflated) => inflated_from(bytes@) == Some(inflated@),
            Err(cause) => inflated_from(bytes@) is None && (gzip_member(bytes@) is Some
                ==> cause@ == SIZE_MISMATCH@),
        },
        outcome matches Ok(inflated) ==> inflated.rest == 0 && inflated.data@.len() < 0x1_0000_0000
            ==> inflated.data@.len() == recorded_size(bytes@),
{
    match read_member(bytes) {
        Ok((payload, rest)) => {
            assert(bytes@.take(bytes@.len() - 0) =~= bytes@);
            accept_member(bytes, payload, rest)
        },
        Err(error) => Err(error.to_string()),
    }
}

/// What a member is refused with whose size field disagrees with its payload.
pub const SIZE_MISMATCH: &'static str = "gzip size field does not match the payload";

/// Takes what the decoder made of `bytes`, a payload and the count of bytes
/// behind the member, and accepts it if and only if the member's size field
/// agrees with the payload; a member that is refused is refused with
/// `SIZE_MISMATCH`.
pub fn accept_member(bytes: &[u8], payload: Vec<u8>, rest: usize) -> (outcome: Result<
    Inflated,
    String,
>)
    ensures
        outcome is Ok <==> size_agrees(bytes@, payload@.len(), rest as nat),
        outcome matches Ok(inflated) ==> inflated.data@ == payload@ && inflated.rest == rest,
        outcome matches Err(cause) ==> cause@ == SIZE_MISMATCH@,
{
    if rest <= bytes.len() && bytes.len() - rest >= 8 {
        let recorded = size_field(bytes, bytes.len() - rest);
        if recorded == Some((payload.len() as u64 % 0x1_0000_0000) as u32) {
            return Ok(Inflated { data: payload, rest });
        }
    }
    Err(SIZE_MISMATCH.to_owned())
}

} // verus!
