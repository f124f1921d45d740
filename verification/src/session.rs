//! Session-key material: the bundle of per-module public keys a validator
//! registers for one session, its wire encoding, and its decoding into raw
//! (key, key type) pairs for the external key store.

use vstd::prelude::*;
use crate::block::{mix64, mix64_step};
use crate::codec::{dec64, enc64, lemma_enc64_dec, push_u64, read_u64_at};

verus! {

/// The per-module session keys of one validator.
#[derive(Clone, Copy, Debug, PartialEq, Eq, Structural)]
pub struct SessionKeys {
    /// The block-production key.
    pub babe: u64,
    /// The finality-voting key.
    pub grandpa: u64,
}

/// Which module a raw session key belongs to.
#[derive(Clone, Copy, Debug, PartialEq, Eq, Structural)]
pub enum KeyTypeId {
    Babe,
    Grandpa,
}

/// The wire encoding of a key bundle: the keys in module declaration order.
pub open spec fn spec_encode_session_keys(k: SessionKeys) -> Seq<u8> {
    enc64(k.babe) + enc64(k.grandpa)
}

/// The key bundle a seed derives: one key per module, separated by the
/// module's position. A deterministic derivation standing in for the external
/// key-store collaborator.
pub open spec fn spec_keys_from_seed(seed: u64) -> SessionKeys {
    SessionKeys { babe: mix64(seed, 1), grandpa: mix64(seed, 2) }
}

/// Derives a fresh key bundle from a seed and hands back its encoding, ready
/// to be registered on chain.
pub fn generate_session_keys(seed: u64) -> (r: Vec<u8>)
    ensures
        r@ == spec_encode_session_keys(spec_keys_from_seed(seed)),
{
    let keys = SessionKeys { babe: mix64_step(seed, 1), grandpa: mix64_step(seed, 2) };
    encode_session_keys(&keys)
}

/// Encodes a key bundle into its wire bytes.
pub fn encode_session_keys(k: &SessionKeys) -> (r: Vec<u8>)
    ensures
        r@ == spec_encode_session_keys(*k),
{
    let mut out: Vec<u8> = Vec::new();
    push_u64(&mut out, k.babe);
    push_u64(&mut out, k.grandpa);
    proof {
        assert(out@ =~= spec_encode_session_keys(*k));
    }
    out
}

/// Reads an encoded key bundle back as raw (public key, key type) pairs, in
/// module declaration order; exactly the two-key encodings are accepted.
pub open spec fn spec_decode_session_keys(s: Seq<u8>) -> Option<Seq<(u64, KeyTypeId)>> {
    if s.len() != 16 {
        None
    } else {
        Some(
            seq![
                (dec64(s.subrange(0, 8)) as u64, KeyTypeId::Babe),
                (dec64(s.subrange(8, 16)) as u64, KeyTypeId::Grandpa),
            ],
        )
    }
}

/// Decodes an encoded key bundle into raw (public key, key type) pairs.
pub fn decode_session_keys(bytes: &Vec<u8>) -> (r: Option<Vec<(u64, KeyTypeId)>>)
    ensures
        match r {
            Some(pairs) => spec_decode_session_keys(bytes@) == Some(pairs@),
            None => spec_decode_session_keys(bytes@) is None,
        },
{
    if bytes.len() != 16 {
        return None;
    }
    let babe = read_u64_at(bytes, 0);
    let grandpa = read_u64_at(bytes, 8);
    let pairs: Vec<(u64, KeyTypeId)> = vec![(babe, KeyTypeId::Babe), (grandpa, KeyTypeId::Grandpa)];
    proof {
        assert(pairs@ =~= spec_decode_session_keys(bytes@)->Some_0);
    }
    Some(pairs)
}

/// Round trip: decoding an encoded key bundle yields exactly its keys, each
/// under its module's key type, in declaration order.
pub proof fn lemma_session_keys_round_trip(k: SessionKeys)
    ensures
        spec_decode_session_keys(spec_encode_session_keys(k)) == Some(
            seq![(k.babe, KeyTypeId::Babe), (k.grandpa, KeyTypeId::Grandpa)],
        ),
{
    let s = spec_encode_session_keys(k);
    lemma_enc64_dec(k.babe);
    lemma_enc64_dec(k.grandpa);
    assert(s.subrange(0, 8) =~= enc64(k.babe));
    assert(s.subrange(8, 16) =~= enc64(k.grandpa));
    assert(spec_decode_session_keys(s)->Some_0 =~= seq![
        (k.babe, KeyTypeId::Babe),
        (k.grandpa, KeyTypeId::Grandpa),
    ]);
}

} // verus!
