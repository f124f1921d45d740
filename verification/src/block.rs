//! Blocks and headers, and the digest primitive that binds a block to the
//! chain. A header carries the block number, the parent hash, the state-root
//! digest of the committed state, and an opaque digest log of
//! consensus-engine items passed through unread.

use vstd::prelude::*;
use crate::extrinsic::{BlockNumber, Extrinsic, Hash64};

verus! {

/// One mixing step of the digest: a rotation of the accumulator folded with
/// the next word. Deterministic, so every node computes the same digests.
pub open spec fn mix64(acc: u64, word: u64) -> u64 {
    ((acc << 7) | (acc >> 57)) ^ word
}

/// Executes one digest mixing step.
pub fn mix64_step(acc: u64, word: u64) -> (r: u64)
    ensures
        r == mix64(acc, word),
{
    ((acc << 7u64) | (acc >> 57u64)) ^ word
}

/// A block header.
pub struct Header {
    pub number: BlockNumber,
    pub parent_hash: Hash64,
    /// Digest of the state committed by this block.
    pub state_root: Hash64,
    /// Consensus-engine items (e.g. a slot claim), passed through opaquely.
    pub digest: Vec<u64>,
}

/// The mathematical value of a header.
#[verifier::ext_equal]
pub struct HeaderModel {
    pub number: BlockNumber,
    pub parent_hash: Hash64,
    pub state_root: Hash64,
    pub digest: Seq<u64>,
}

impl View for Header {
    type V = HeaderModel;

    open spec fn view(&self) -> HeaderModel {
        HeaderModel {
            number: self.number,
            parent_hash: self.parent_hash,
            state_root: self.state_root,
            digest: self.digest@,
        }
    }
}

/// The hash of the block a header closes: a digest over the header's
/// chain-binding fields.
pub open spec fn spec_header_hash(h: HeaderModel) -> Hash64 {
    mix64(mix64(mix64(0x9e3779b97f4a7c15u64, h.number as u64), h.parent_hash), h.state_root)
}

/// Computes the hash of the block a header closes.
pub fn header_hash(h: &Header) -> (r: Hash64)
    ensures
        r == spec_header_hash(h@),
{
    mix64_step(mix64_step(mix64_step(0x9e3779b97f4a7c15u64, h.number as u64), h.parent_hash), h.state_root)
}

/// Whether two headers are the same value, digest log included.
pub fn header_eq(a: &Header, b: &Header) -> (r: bool)
    ensures
        r == (a@ == b@),
{
    if a.number != b.number || a.parent_hash != b.parent_hash || a.state_root != b.state_root {
        proof {
            assert(a@ != b@);
        }
        return false;
    }
    if a.digest.len() != b.digest.len() {
        proof {
            assert(a@.digest.len() != b@.digest.len());
        }
        return false;
    }
    let mut i: usize = 0;
    while i < a.digest.len()
        invariant
            i <= a.digest.len(),
            a.digest.len() == b.digest.len(),
            forall|j: int| 0 <= j < i ==> a.digest@[j] == b.digest@[j],
        decreases a.digest.len() - i,
    {
        if a.digest[i] != b.digest[i] {
            proof {
                assert(a@.digest[i as int] != b@.digest[i as int]);
            }
            return false;
        }
        i += 1;
    }
    proof {
        assert(a@.digest =~= b@.digest);
        assert(a@ =~= b@);
    }
    true
}

/// A block: a header plus the ordered sequence of extrinsics it contains.
/// The order is exactly the one the block author chose; execution never
/// reorders it.
pub struct Block {
    pub header: Header,
    pub extrinsics: Vec<Extrinsic>,
}

/// The mathematical value of a block.
#[verifier::ext_equal]
pub struct BlockModel {
    pub header: HeaderModel,
    pub extrinsics: Seq<Extrinsic>,
}

impl View for Block {
    type V = BlockModel;

    open spec fn view(&self) -> BlockModel {
        BlockModel { header: self.header@, extrinsics: self.extrinsics@ }
    }
}

} // verus!
