//! Identities: an entity that is created takes its identity from the
//! transaction that creates it, as a digest of the first input's out point
//! and a salt. No other transaction can spend that out point, so no other
//! transaction can create the same identity.

use vstd::prelude::*;
use vstd::slice::slice_subrange;
use crate::bytes::{bytes_eq, u32_be_bytes, u32_to_be_bytes, u64_le_bytes, u64_to_le_bytes};
use crate::transaction::{OutPoint, OutPointView};

verus! {

/// The length of a digest.
pub const DIGEST_LEN: usize = 32;

/// The BLAKE2b digest of 32 bytes of a message, computed without key, salt
/// or personalisation.
pub uninterp spec fn blake2b_256(message: Seq<u8>) -> Seq<u8>;

/// Hashes a message with `blake2b_rs`: a hasher built by
/// `Blake2bBuilder::new(32).build()` takes the message in one `update`, and
/// `finalize` writes the digest into a buffer of 32 bytes. The contract
/// names the digest as a function of the message and says that it is 32
/// bytes long; nothing of the hash function itself is proved here.
#[verifier::external_body]
fn blake2b_digest(message: &[u8]) -> (digest: Vec<u8>)
    ensures
        digest@ == blake2b_256(message@),
        digest@.len() == DIGEST_LEN,
{
    let mut hasher = blake2b_rs::Blake2bBuilder::new(32).build();
    hasher.update(message);
    let mut digest = vec![0u8; 32];
    hasher.finalize(&mut digest);
    digest
}

/// The digest that an identity is taken from: that of the hash of the
/// transaction that the first input spends from, followed by a salt.
pub fn derive_identity(tx_hash: &[u8], salt: &[u8]) -> (digest: Vec<u8>)
    ensures
        digest@ == blake2b_256(tx_hash@ + salt@),
        digest@.len() == DIGEST_LEN,
{
    let mut message: Vec<u8> = Vec::new();
    message.extend_from_slice(tx_hash);
    message.extend_from_slice(salt);
    assert(message@ =~= tx_hash@ + salt@);
    blake2b_digest(message.as_slice())
}

/// What the identity of an issuer or of a metadata cell is the digest of: the
/// hash of the transaction that the first input spends from, then the index
/// of the output spent there, in four bytes, big-endian.
pub open spec fn out_point_seed(out_point: OutPointView) -> Seq<u8> {
    out_point.tx_hash + u32_be_bytes(out_point.index as int)
}

/// The digest of an out point and its own index.
pub fn out_point_digest(out_point: &OutPoint) -> (digest: Vec<u8>)
    ensures
        digest@ == blake2b_256(out_point_seed(out_point@)),
        digest@.len() == DIGEST_LEN,
{
    let salt = u32_to_be_bytes(out_point.index);
    derive_identity(out_point.tx_hash.as_slice(), salt.as_slice())
}

/// What the identity of a directly minted token is the digest of: the hash
/// of the transaction that the first input spends from, then the index of
/// the token's own cell among the outputs, in eight bytes, little-endian.
pub open spec fn output_index_seed(out_point: OutPointView, output_index: int) -> Seq<u8> {
    out_point.tx_hash + u64_le_bytes(output_index)
}

/// The digest of an out point and the index of an output.
pub fn output_index_digest(out_point: &OutPoint, output_index: usize) -> (digest: Vec<u8>)
    ensures
        digest@ == blake2b_256(output_index_seed(out_point@, output_index as int)),
        digest@.len() == DIGEST_LEN,
{
    let salt = u64_to_le_bytes(output_index as u64);
    derive_identity(out_point.tx_hash.as_slice(), salt.as_slice())
}

/// Whether type arguments end in the first `width` bytes of a digest, which
/// start at offset `start` of the arguments.
pub open spec fn carries_digest(args: Seq<u8>, start: int, width: int, digest: Seq<u8>) -> bool {
    &&& 0 <= start
    &&& 0 <= width <= digest.len()
    &&& args.len() == start + width
    &&& args.subrange(start, start + width) == digest.subrange(0, width)
}

/// Tests whether type arguments end in the first `width` bytes of a digest,
/// which start at offset `start` of the arguments.
pub fn args_carry_digest(args: &[u8], start: usize, width: usize, digest: &[u8]) -> (carried: bool)
    ensures
        carried == carries_digest(args@, start as int, width as int, digest@),
{
    if width > digest.len() || start > args.len() || args.len() - start != width {
        return false;
    }
    bytes_eq(slice_subrange(args, start, args.len()), slice_subrange(digest, 0, width))
}

} // verus!
