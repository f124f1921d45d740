//! The wire format of extrinsics: a deterministic, self-delimiting byte
//! encoding. Decoding is strict: it accepts exactly the canonical encodings
//! and reproduces the encoded value, so an extrinsic survives a round trip
//! over the wire unchanged.

use vstd::prelude::*;
use crate::extrinsic::{Era, Extrinsic, SignedExtra};
use crate::registry::{BalancesCall, Call, SystemCall, TimestampCall};

verus! {

/// Little-endian bytes of a 16-bit word.
#[verifier::opaque]
pub open spec fn enc16(x: u16) -> Seq<u8> {
    seq![(x % 256) as u8, (x / 256) as u8]
}

/// Little-endian bytes of a 32-bit word.
#[verifier::opaque]
pub open spec fn enc32(x: u32) -> Seq<u8> {
    enc16((x % 0x10000) as u16) + enc16((x / 0x10000) as u16)
}

/// Little-endian bytes of a 64-bit word.
#[verifier::opaque]
pub open spec fn enc64(x: u64) -> Seq<u8> {
    enc32((x % 0x1_0000_0000) as u32) + enc32((x / 0x1_0000_0000) as u32)
}

/// The value of two little-endian bytes.
#[verifier::opaque]
pub open spec fn dec16(s: Seq<u8>) -> int {
    s[0] + 256 * s[1]
}

/// The value of four little-endian bytes.
#[verifier::opaque]
pub open spec fn dec32(s: Seq<u8>) -> int {
    dec16(s.subrange(0, 2)) + 0x10000 * dec16(s.subrange(2, 4))
}

/// The value of eight little-endian bytes.
#[verifier::opaque]
pub open spec fn dec64(s: Seq<u8>) -> int {
    dec32(s.subrange(0, 4)) + 0x1_0000_0000 * dec32(s.subrange(4, 8))
}

/// Decoding inverts encoding on 16-bit words.
pub proof fn lemma_enc16_dec(x: u16)
    ensures
        enc16(x).len() == 2,
        dec16(enc16(x)) == x,
{
    reveal(enc16);
    reveal(dec16);
    assert(x / 256 < 256) by (nonlinear_arith)
        requires x <= 0xffff,
    ;
    assert(x % 256 + 256 * (x / 256) == x) by (nonlinear_arith);
}

/// Decoding inverts encoding on 32-bit words.
pub proof fn lemma_enc32_dec(x: u32)
    ensures
        enc32(x).len() == 4,
        dec32(enc32(x)) == x,
{
    reveal(enc32);
    reveal(dec32);
    let lo = (x % 0x10000) as u16;
    let hi = (x / 0x10000) as u16;
    assert(x / 0x10000 < 0x10000) by (nonlinear_arith)
        requires x <= 0xffff_ffff,
    ;
    lemma_enc16_dec(lo);
    lemma_enc16_dec(hi);
    assert(enc32(x).subrange(0, 2) =~= enc16(lo));
    assert(enc32(x).subrange(2, 4) =~= enc16(hi));
    assert(x % 0x10000 + 0x10000 * (x / 0x10000) == x) by (nonlinear_arith);
}

/// Decoding inverts encoding on 64-bit words.
pub proof fn lemma_enc64_dec(x: u64)
    ensures
        enc64(x).len() == 8,
        dec64(enc64(x)) == x,
{
    reveal(enc64);
    reveal(dec64);
    let lo = (x % 0x1_0000_0000) as u32;
    let hi = (x / 0x1_0000_0000) as u32;
    assert(x / 0x1_0000_0000 < 0x1_0000_0000) by (nonlinear_arith)
        requires x <= 0xffff_ffff_ffff_ffff,
    ;
    lemma_enc32_dec(lo);
    lemma_enc32_dec(hi);
    assert(enc64(x).subrange(0, 4) =~= enc32(lo));
    assert(enc64(x).subrange(4, 8) =~= enc32(hi));
    assert(x % 0x1_0000_0000 + 0x1_0000_0000 * (x / 0x1_0000_0000) == x) by (nonlinear_arith);
}

/// Bytes of a mortality window: a tag, then the window bounds.
pub open spec fn spec_encode_era(e: Era) -> Seq<u8> {
    match e {
        Era::Immortal => seq![0u8],
        Era::Mortal { birth, death } => seq![1u8] + enc64(birth as u64) + enc64(death as u64),
    }
}

/// Bytes of a call: one byte naming the module and action, then the arguments.
pub open spec fn spec_encode_call(c: Call) -> Seq<u8> {
    match c {
        Call::System(SystemCall::Remark { note }) => seq![0u8] + enc64(note),
        Call::Timestamp(TimestampCall::SetNow { now }) => seq![1u8] + enc64(now),
        Call::Balances(BalancesCall::Transfer { dest, value }) => seq![2u8] + enc64(dest) + enc64(value),
    }
}

/// Bytes of the validity-check bundle, in check order.
pub open spec fn spec_encode_extra(x: SignedExtra) -> Seq<u8> {
    enc64(x.spec_version as u64) + enc64(x.transaction_version as u64) + enc64(x.genesis_hash)
        + spec_encode_era(x.era) + enc64(x.checkpoint_hash) + enc64(x.nonce as u64)
}

/// Bytes of an extrinsic: a tag byte, then the variant's fields.
pub open spec fn spec_encode_extrinsic(xt: Extrinsic) -> Seq<u8> {
    match xt {
        Extrinsic::Inherent { call } => seq![0u8] + spec_encode_call(call),
        Extrinsic::Signed { who, signature, call, extra } => seq![1u8] + enc64(who) + enc64(signature)
            + spec_encode_call(call) + spec_encode_extra(extra),
    }
}

/// Reads a mortality window from the front of `s`: the value and the bytes
/// consumed, or nothing when `s` does not start with one.
pub open spec fn spec_decode_era(s: Seq<u8>) -> Option<(Era, int)> {
    if s.len() < 1 {
        None
    } else if s[0] == 0 {
        Some((Era::Immortal, 1))
    } else if s[0] == 1 {
        if s.len() < 17 {
            None
        } else {
            let birth = dec64(s.subrange(1, 9));
            let death = dec64(s.subrange(9, 17));
            if birth > u32::MAX || death > u32::MAX {
                None
            } else {
                Some((Era::Mortal { birth: birth as u32, death: death as u32 }, 17))
            }
        }
    } else {
        None
    }
}

/// Reads a call from the front of `s`.
pub open spec fn spec_decode_call(s: Seq<u8>) -> Option<(Call, int)> {
    if s.len() < 1 {
        None
    } else if s[0] == 0 {
        if s.len() < 9 {
            None
        } else {
            Some((Call::System(SystemCall::Remark { note: dec64(s.subrange(1, 9)) as u64 }), 9))
        }
    } else if s[0] == 1 {
        if s.len() < 9 {
            None
        } else {
            Some((Call::Timestamp(TimestampCall::SetNow { now: dec64(s.subrange(1, 9)) as u64 }), 9))
        }
    } else if s[0] == 2 {
        if s.len() < 17 {
            None
        } else {
            Some((
                Call::Balances(BalancesCall::Transfer {
                    dest: dec64(s.subrange(1, 9)) as u64,
                    value: dec64(s.subrange(9, 17)) as u64,
                }),
                17,
            ))
        }
    } else {
        None
    }
}

/// Reads a validity-check bundle from the front of `s`.
pub open spec fn spec_decode_extra(s: Seq<u8>) -> Option<(SignedExtra, int)> {
    if s.len() < 24 {
        None
    } else {
        let sv = dec64(s.subrange(0, 8));
        let tv = dec64(s.subrange(8, 16));
        let genesis = dec64(s.subrange(16, 24));
        if sv > u32::MAX || tv > u32::MAX {
            None
        } else {
            match spec_decode_era(s.skip(24)) {
                Some((era, k)) => {
                    if s.len() < 24 + k + 16 {
                        None
                    } else {
                        let checkpoint = dec64(s.subrange(24 + k, 32 + k));
                        let nonce = dec64(s.subrange(32 + k, 40 + k));
                        if nonce > u32::MAX {
                            None
                        } else {
                            Some((
                                SignedExtra {
                                    spec_version: sv as u32,
                                    transaction_version: tv as u32,
                                    genesis_hash: genesis as u64,
                                    era,
                                    checkpoint_hash: checkpoint as u64,
                                    nonce: nonce as u32,
                                },
                                40 + k,
                            ))
                        }
                    }
                },
                None => None,
            }
        }
    }
}

/// Reads a whole extrinsic: the bytes must hold exactly one canonical
/// encoding, nothing more.
pub open spec fn spec_decode_extrinsic(s: Seq<u8>) -> Option<Extrinsic> {
    if s.len() < 1 {
        None
    } else if s[0] == 0 {
        match spec_decode_call(s.skip(1)) {
            Some((call, n)) => {
                if s.len() == 1 + n {
                    Some(Extrinsic::Inherent { call })
                } else {
                    None
                }
            },
            None => None,
        }
    } else if s[0] == 1 {
        if s.len() < 17 {
            None
        } else {
            let who = dec64(s.subrange(1, 9));
            let signature = dec64(s.subrange(9, 17));
            match spec_decode_call(s.skip(17)) {
                Some((call, n)) => match spec_decode_extra(s.skip(17 + n)) {
                    Some((extra, m)) => {
                        if s.len() == 17 + n + m {
                            Some(Extrinsic::Signed {
                                who: who as u64,
                                signature: signature as u64,
                                call,
                                extra,
                            })
                        } else {
                            None
                        }
                    },
                    None => None,
                },
                None => None,
            }
        }
    } else {
        None
    }
}

/// Decoding inverts encoding on mortality windows, whatever follows them.
pub proof fn lemma_era_round_trip(e: Era, rest: Seq<u8>)
    ensures
        spec_decode_era(spec_encode_era(e) + rest) == Some((e, spec_encode_era(e).len() as int)),
{
    let s = spec_encode_era(e) + rest;
    match e {
        Era::Immortal => {
            assert(s[0] == 0);
        },
        Era::Mortal { birth, death } => {
            lemma_enc64_dec(birth as u64);
            lemma_enc64_dec(death as u64);
            assert(s[0] == 1);
            assert(s.subrange(1, 9) =~= enc64(birth as u64));
            assert(s.subrange(9, 17) =~= enc64(death as u64));
        },
    }
}

/// Decoding inverts encoding on calls, whatever follows them.
pub proof fn lemma_call_round_trip(c: Call, rest: Seq<u8>)
    ensures
        spec_decode_call(spec_encode_call(c) + rest) == Some((c, spec_encode_call(c).len() as int)),
{
    let s = spec_encode_call(c) + rest;
    match c {
        Call::System(SystemCall::Remark { note }) => {
            lemma_enc64_dec(note);
            assert(s[0] == 0);
            assert(s.subrange(1, 9) =~= enc64(note));
        },
        Call::Timestamp(TimestampCall::SetNow { now }) => {
            lemma_enc64_dec(now);
            assert(s[0] == 1);
            assert(s.subrange(1, 9) =~= enc64(now));
        },
        Call::Balances(BalancesCall::Transfer { dest, value }) => {
            lemma_enc64_dec(dest);
            lemma_enc64_dec(value);
            assert(s[0] == 2);
            assert(s.subrange(1, 9) =~= enc64(dest));
            assert(s.subrange(9, 17) =~= enc64(value));
        },
    }
}

/// Decoding inverts encoding on validity-check bundles, whatever follows them.
#[verifier::rlimit(60)]
pub proof fn lemma_extra_round_trip(x: SignedExtra, rest: Seq<u8>)
    ensures
        spec_decode_extra(spec_encode_extra(x) + rest) == Some((
            x,
            spec_encode_extra(x).len() as int,
        )),
{
    let s = spec_encode_extra(x) + rest;
    lemma_enc64_dec(x.spec_version as u64);
    lemma_enc64_dec(x.transaction_version as u64);
    lemma_enc64_dec(x.genesis_hash);
    lemma_enc64_dec(x.checkpoint_hash);
    lemma_enc64_dec(x.nonce as u64);
    let k = spec_encode_era(x.era).len() as int;
    assert(s.subrange(0, 8) =~= enc64(x.spec_version as u64));
    assert(s.subrange(8, 16) =~= enc64(x.transaction_version as u64));
    assert(s.subrange(16, 24) =~= enc64(x.genesis_hash));
    assert(s.skip(24) =~= spec_encode_era(x.era) + (enc64(x.checkpoint_hash) + enc64(x.nonce as u64) + rest));
    lemma_era_round_trip(x.era, enc64(x.checkpoint_hash) + enc64(x.nonce as u64) + rest);
    assert(s.subrange(24 + k, 32 + k) =~= enc64(x.checkpoint_hash));
    assert(s.subrange(32 + k, 40 + k) =~= enc64(x.nonce as u64));
    lemma_extra_len(x);
    assert(spec_encode_extra(x).len() == 40 + k);
}

/// Round trip: decoding the encoding of any extrinsic, signed or not,
/// reproduces the identical value.
pub proof fn lemma_extrinsic_round_trip(xt: Extrinsic)
    ensures
        spec_decode_extrinsic(spec_encode_extrinsic(xt)) == Some(xt),
{
    let s = spec_encode_extrinsic(xt);
    match xt {
        Extrinsic::Inherent { call } => {
            assert(s[0] == 0);
            assert(s.skip(1) =~= spec_encode_call(call) + Seq::<u8>::empty());
            lemma_call_round_trip(call, Seq::<u8>::empty());
            assert(spec_encode_call(call) + Seq::<u8>::empty() =~= spec_encode_call(call));
            assert(s.len() == 1 + spec_encode_call(call).len());
        },
        Extrinsic::Signed { who, signature, call, extra } => {
            assert(s[0] == 1);
            lemma_enc64_dec(who);
            lemma_enc64_dec(signature);
            assert(s.subrange(1, 9) =~= enc64(who));
            assert(s.subrange(9, 17) =~= enc64(signature));
            let n = spec_encode_call(call).len() as int;
            let m = spec_encode_extra(extra).len() as int;
            assert(s.skip(17) =~= spec_encode_call(call) + spec_encode_extra(extra));
            lemma_call_round_trip(call, spec_encode_extra(extra));
            assert(s.skip(17 + n) =~= spec_encode_extra(extra) + Seq::<u8>::empty());
            lemma_extra_round_trip(extra, Seq::<u8>::empty());
            assert(spec_encode_extra(extra) + Seq::<u8>::empty() =~= spec_encode_extra(extra));
            assert(s.len() == 17 + n + m);
        },
    }
}

/// Appends the little-endian bytes of a 16-bit word.
fn push_u16(out: &mut Vec<u8>, x: u16)
    ensures
        final(out)@ == old(out)@ + enc16(x),
{
    out.push((x % 256) as u8);
    out.push((x / 256) as u8);
    proof {
        reveal(enc16);
        assert(out@ =~= old(out)@ + enc16(x));
    }
}

/// Appends the little-endian bytes of a 32-bit word.
fn push_u32(out: &mut Vec<u8>, x: u32)
    ensures
        final(out)@ == old(out)@ + enc32(x),
{
    push_u16(out, (x % 0x10000) as u16);
    push_u16(out, (x / 0x10000) as u16);
    proof {
        reveal(enc32);
        assert(x / 0x10000 < 0x10000) by (nonlinear_arith)
            requires x <= 0xffff_ffff,
        ;
        assert(out@ =~= old(out)@ + enc32(x));
    }
}

/// Appends the little-endian bytes of a 64-bit word.
pub(crate) fn push_u64(out: &mut Vec<u8>, x: u64)
    ensures
        final(out)@ == old(out)@ + enc64(x),
{
    push_u32(out, (x % 0x1_0000_0000) as u32);
    push_u32(out, (x / 0x1_0000_0000) as u32);
    proof {
        reveal(enc64);
        assert(x / 0x1_0000_0000 < 0x1_0000_0000) by (nonlinear_arith)
            requires x <= 0xffff_ffff_ffff_ffff,
        ;
        assert(out@ =~= old(out)@ + enc64(x));
    }
}

/// Appends the encoding of a mortality window.
fn push_era(out: &mut Vec<u8>, e: &Era)
    ensures
        final(out)@ == old(out)@ + spec_encode_era(*e),
{
    match e {
        Era::Immortal => {
            out.push(0u8);
            proof {
                assert(out@ =~= old(out)@ + spec_encode_era(*e));
            }
        },
        Era::Mortal { birth, death } => {
            out.push(1u8);
            let ghost mid = out@;
            push_u64(out, *birth as u64);
            push_u64(out, *death as u64);
            proof {
                assert(mid =~= old(out)@ + seq![1u8]);
                assert(out@ =~= old(out)@ + spec_encode_era(*e));
            }
        },
    }
}

/// Appends the encoding of a call.
fn push_call(out: &mut Vec<u8>, c: &Call)
    ensures
        final(out)@ == old(out)@ + spec_encode_call(*c),
{
    match c {
        Call::System(SystemCall::Remark { note }) => {
            out.push(0u8);
            push_u64(out, *note);
            proof {
                assert(out@ =~= old(out)@ + spec_encode_call(*c));
            }
        },
        Call::Timestamp(TimestampCall::SetNow { now }) => {
            out.push(1u8);
            push_u64(out, *now);
            proof {
                assert(out@ =~= old(out)@ + spec_encode_call(*c));
            }
        },
        Call::Balances(BalancesCall::Transfer { dest, value }) => {
            out.push(2u8);
            push_u64(out, *dest);
            push_u64(out, *value);
            proof {
                assert(out@ =~= old(out)@ + spec_encode_call(*c));
            }
        },
    }
}

/// Appends the encoding of a validity-check bundle.
fn push_extra(out: &mut Vec<u8>, x: &SignedExtra)
    ensures
        final(out)@ == old(out)@ + spec_encode_extra(*x),
{
    push_u64(out, x.spec_version as u64);
    push_u64(out, x.transaction_version as u64);
    push_u64(out, x.genesis_hash);
    push_era(out, &x.era);
    push_u64(out, x.checkpoint_hash);
    push_u64(out, x.nonce as u64);
    proof {
        assert(out@ =~= old(out)@ + spec_encode_extra(*x));
    }
}

/// Encodes an extrinsic into its canonical wire bytes.
pub fn encode_extrinsic(xt: &Extrinsic) -> (r: Vec<u8>)
    ensures
        r@ == spec_encode_extrinsic(*xt),
{
    let mut out: Vec<u8> = Vec::new();
    match xt {
        Extrinsic::Inherent { call } => {
            out.push(0u8);
            push_call(&mut out, call);
            proof {
                assert(out@ =~= spec_encode_extrinsic(*xt));
            }
        },
        Extrinsic::Signed { who, signature, call, extra } => {
            out.push(1u8);
            push_u64(&mut out, *who);
            push_u64(&mut out, *signature);
            push_call(&mut out, call);
            push_extra(&mut out, extra);
            proof {
                assert(out@ =~= spec_encode_extrinsic(*xt));
            }
        },
    }
    out
}

/// Reads the 64-bit word at byte offset `i`.
pub(crate) fn read_u64_at(bytes: &Vec<u8>, i: usize) -> (r: u64)
    requires
        i + 8 <= bytes@.len(),
    ensures
        r == dec64(bytes@.subrange(i as int, i as int + 8)),
{
    let n = bytes.len();
    assert(i + 8 <= n);
    let w0 = bytes[i] as u64;
    let w1 = bytes[i + 1] as u64;
    let w2 = bytes[i + 2] as u64;
    let w3 = bytes[i + 3] as u64;
    let w4 = bytes[i + 4] as u64;
    let w5 = bytes[i + 5] as u64;
    let w6 = bytes[i + 6] as u64;
    let w7 = bytes[i + 7] as u64;
    let lo: u64 = w0 + 0x100 * w1 + 0x10000 * w2 + 0x1000000 * w3;
    let hi: u64 = w4 + 0x100 * w5 + 0x10000 * w6 + 0x1000000 * w7;
    let r = lo + 0x1_0000_0000 * hi;
    proof {
        reveal(dec16);
        reveal(dec32);
        reveal(dec64);
        let s = bytes@.subrange(i as int, i as int + 8);
        assert(s.subrange(0, 4).subrange(0, 2) =~= seq![bytes@[i as int], bytes@[i as int + 1]]);
        assert(s.subrange(0, 4).subrange(2, 4) =~= seq![bytes@[i as int + 2], bytes@[i as int + 3]]);
        assert(s.subrange(4, 8).subrange(0, 2) =~= seq![bytes@[i as int + 4], bytes@[i as int + 5]]);
        assert(s.subrange(4, 8).subrange(2, 4) =~= seq![bytes@[i as int + 6], bytes@[i as int + 7]]);
    }
    r
}

/// Reads the mortality window at byte offset `i`: the value and the bytes
/// consumed.
fn read_era_at(bytes: &Vec<u8>, i: usize) -> (r: Option<(Era, usize)>)
    requires
        i <= bytes@.len(),
    ensures
        match r {
            Some((e, k)) => spec_decode_era(bytes@.skip(i as int)) == Some((e, k as int)) && i + k
                <= bytes@.len(),
            None => spec_decode_era(bytes@.skip(i as int)) is None,
        },
{
    let ghost s = bytes@.skip(i as int);
    if bytes.len() - i < 1 {
        return None;
    }
    let tag = bytes[i];
    proof {
        assert(s[0] == bytes@[i as int]);
    }
    if tag == 0 {
        Some((Era::Immortal, 1))
    } else if tag == 1 {
        if bytes.len() - i < 17 {
            return None;
        }
        let birth = read_u64_at(bytes, i + 1);
        let death = read_u64_at(bytes, i + 9);
        proof {
            assert(s.subrange(1, 9) =~= bytes@.subrange(i as int + 1, i as int + 9));
            assert(s.subrange(9, 17) =~= bytes@.subrange(i as int + 9, i as int + 17));
        }
        if birth > u32::MAX as u64 || death > u32::MAX as u64 {
            return None;
        }
        Some((Era::Mortal { birth: birth as u32, death: death as u32 }, 17))
    } else {
        None
    }
}

/// Reads the call at byte offset `i`: the value and the bytes consumed.
fn read_call_at(bytes: &Vec<u8>, i: usize) -> (r: Option<(Call, usize)>)
    requires
        i <= bytes@.len(),
    ensures
        match r {
            Some((c, n)) => spec_decode_call(bytes@.skip(i as int)) == Some((c, n as int)) && i + n
                <= bytes@.len(),
            None => spec_decode_call(bytes@.skip(i as int)) is None,
        },
{
    let ghost s = bytes@.skip(i as int);
    if bytes.len() - i < 1 {
        return None;
    }
    let tag = bytes[i];
    proof {
        assert(s[0] == bytes@[i as int]);
    }
    if tag == 0 {
        if bytes.len() - i < 9 {
            return None;
        }
        let note = read_u64_at(bytes, i + 1);
        proof {
            assert(s.subrange(1, 9) =~= bytes@.subrange(i as int + 1, i as int + 9));
        }
        Some((Call::System(SystemCall::Remark { note }), 9))
    } else if tag == 1 {
        if bytes.len() - i < 9 {
            return None;
        }
        let now = read_u64_at(bytes, i + 1);
        proof {
            assert(s.subrange(1, 9) =~= bytes@.subrange(i as int + 1, i as int + 9));
        }
        Some((Call::Timestamp(TimestampCall::SetNow { now }), 9))
    } else if tag == 2 {
        if bytes.len() - i < 17 {
            return None;
        }
        let dest = read_u64_at(bytes, i + 1);
        let value = read_u64_at(bytes, i + 9);
        proof {
            assert(s.subrange(1, 9) =~= bytes@.subrange(i as int + 1, i as int + 9));
            assert(s.subrange(9, 17) =~= bytes@.subrange(i as int + 9, i as int + 17));
        }
        Some((Call::Balances(BalancesCall::Transfer { dest, value }), 17))
    } else {
        None
    }
}

/// Reads the validity-check bundle at byte offset `i`: the value and the
/// bytes consumed.
fn read_extra_at(bytes: &Vec<u8>, i: usize) -> (r: Option<(SignedExtra, usize)>)
    requires
        i <= bytes@.len(),
    ensures
        match r {
            Some((x, m)) => spec_decode_extra(bytes@.skip(i as int)) == Some((x, m as int)) && i + m
                <= bytes@.len(),
            None => spec_decode_extra(bytes@.skip(i as int)) is None,
        },
{
    let ghost s = bytes@.skip(i as int);
    if bytes.len() - i < 24 {
        return None;
    }
    let sv = read_u64_at(bytes, i);
    let tv = read_u64_at(bytes, i + 8);
    let genesis = read_u64_at(bytes, i + 16);
    proof {
        assert(s.subrange(0, 8) =~= bytes@.subrange(i as int, i as int + 8));
        assert(s.subrange(8, 16) =~= bytes@.subrange(i as int + 8, i as int + 16));
        assert(s.subrange(16, 24) =~= bytes@.subrange(i as int + 16, i as int + 24));
    }
    if sv > u32::MAX as u64 || tv > u32::MAX as u64 {
        return None;
    }
    let era_at = read_era_at(bytes, i + 24);
    proof {
        assert(s.skip(24) =~= bytes@.skip(i as int + 24));
    }
    match era_at {
        Some((era, k)) => {
            if bytes.len() - i < 24 + k + 16 {
                proof {
                    assert(s.len() < 24 + k + 16);
                }
                return None;
            }
            let checkpoint = read_u64_at(bytes, i + 24 + k);
            let nonce = read_u64_at(bytes, i + 24 + k + 8);
            proof {
                assert(s.subrange(24 + k as int, 32 + k as int) =~= bytes@.subrange(
                    i as int + 24 + k as int,
                    i as int + 32 + k as int,
                ));
                assert(s.subrange(32 + k as int, 40 + k as int) =~= bytes@.subrange(
                    i as int + 32 + k as int,
                    i as int + 40 + k as int,
                ));
            }
            if nonce > u32::MAX as u64 {
                return None;
            }
            Some((
                SignedExtra {
                    spec_version: sv as u32,
                    transaction_version: tv as u32,
                    genesis_hash: genesis,
                    era,
                    checkpoint_hash: checkpoint,
                    nonce: nonce as u32,
                },
                24 + k + 16,
            ))
        },
        None => None,
    }
}

/// Decodes an extrinsic from its canonical wire bytes. Exactly the canonical
/// encodings are accepted: anything shorter, longer or malformed is rejected.
pub fn decode_extrinsic(bytes: &Vec<u8>) -> (r: Option<Extrinsic>)
    ensures
        r == spec_decode_extrinsic(bytes@),
{
    if bytes.len() < 1 {
        return None;
    }
    let tag = bytes[0];
    if tag == 0 {
        match read_call_at(bytes, 1) {
            Some((call, n)) => {
                if bytes.len() == 1 + n {
                    Some(Extrinsic::Inherent { call })
                } else {
                    None
                }
            },
            None => None,
        }
    } else if tag == 1 {
        if bytes.len() < 17 {
            return None;
        }
        let who = read_u64_at(bytes, 1);
        let signature = read_u64_at(bytes, 9);
        match read_call_at(bytes, 17) {
            Some((call, n)) => match read_extra_at(bytes, 17 + n) {
                Some((extra, m)) => {
                    if bytes.len() == 17 + n + m {
                        Some(Extrinsic::Signed { who, signature, call, extra })
                    } else {
                        None
                    }
                },
                None => None,
            },
            None => None,
        }
    } else {
        None
    }
}

/// The encoded length of an extrinsic.
pub open spec fn spec_encoded_len(xt: Extrinsic) -> int {
    spec_encode_extrinsic(xt).len() as int
}

/// Every encoding is short: it never outgrows a block's length budget type.
pub proof fn lemma_encoded_len_small(xt: Extrinsic)
    ensures
        1 <= spec_encoded_len(xt) <= 91,
{
    match xt {
        Extrinsic::Inherent { call } => {
            lemma_call_len(call);
            assert(spec_encode_extrinsic(xt).len() == 1 + spec_encode_call(call).len());
        },
        Extrinsic::Signed { who, signature, call, extra } => {
            lemma_enc_lens(who);
            lemma_enc_lens(signature);
            lemma_call_len(call);
            lemma_extra_len(extra);
            assert(spec_encode_extrinsic(xt).len() == 17 + spec_encode_call(call).len()
                + spec_encode_extra(extra).len());
        },
    }
}

/// The byte counts of the fixed-width words.
proof fn lemma_enc_lens(x: u64)
    ensures
        enc64(x).len() == 8,
{
    lemma_enc64_dec(x);
}

/// A call encodes into one tag byte plus its arguments.
proof fn lemma_call_len(c: Call)
    ensures
        spec_encode_call(c).len() == match c {
            Call::System(..) => 9int,
            Call::Timestamp(..) => 9int,
            Call::Balances(..) => 17int,
        },
{
    match c {
        Call::System(SystemCall::Remark { note }) => {
            lemma_enc_lens(note);
        },
        Call::Timestamp(TimestampCall::SetNow { now }) => {
            lemma_enc_lens(now);
        },
        Call::Balances(BalancesCall::Transfer { dest, value }) => {
            lemma_enc_lens(dest);
            lemma_enc_lens(value);
        },
    }
}

/// A mortality window encodes into one tag byte, plus its bounds when mortal.
proof fn lemma_era_len(e: Era)
    ensures
        spec_encode_era(e).len() == match e {
            Era::Immortal => 1int,
            Era::Mortal { .. } => 17int,
        },
{
    match e {
        Era::Immortal => {},
        Era::Mortal { birth, death } => {
            lemma_enc_lens(birth as u64);
            lemma_enc_lens(death as u64);
        },
    }
}

/// A validity-check bundle encodes into the five words plus the window.
proof fn lemma_extra_len(x: SignedExtra)
    ensures
        spec_encode_extra(x).len() == 40 + spec_encode_era(x.era).len(),
        25 <= spec_encode_extra(x).len() <= 57,
{
    lemma_enc_lens(x.spec_version as u64);
    lemma_enc_lens(x.transaction_version as u64);
    lemma_enc_lens(x.genesis_hash);
    lemma_enc_lens(x.checkpoint_hash);
    lemma_enc_lens(x.nonce as u64);
    lemma_era_len(x.era);
}

/// Computes the encoded length of an extrinsic without materializing the
/// bytes.
pub fn encoded_len(xt: &Extrinsic) -> (r: u32)
    ensures
        r == spec_encoded_len(*xt),
{
    proof {
        lemma_encoded_len_small(*xt);
        match *xt {
            Extrinsic::Inherent { call } => {
                lemma_call_len(call);
            },
            Extrinsic::Signed { who, signature, call, extra } => {
                lemma_enc_lens(who);
                lemma_enc_lens(signature);
                lemma_call_len(call);
                lemma_extra_len(extra);
                lemma_era_len(extra.era);
            },
        }
    }
    match xt {
        Extrinsic::Inherent { call } => 1 + call_encoded_len(call),
        Extrinsic::Signed { call, extra, .. } => {
            let era_len: u32 = match extra.era {
                Era::Immortal => 1,
                Era::Mortal { .. } => 17,
            };
            1 + 8 + 8 + call_encoded_len(call) + 24 + era_len + 16
        },
    }
}

/// Computes the encoded length of a call.
fn call_encoded_len(call: &Call) -> (r: u32)
    ensures
        r == spec_encode_call(*call).len(),
{
    proof {
        lemma_call_len(*call);
    }
    match call {
        Call::System(..) => 9,
        Call::Timestamp(..) => 9,
        Call::Balances(..) => 17,
    }
}

} // verus!
