//! Canonical deterministic binary encoding of ledger infos.
//!
//! A commit vote signs the exact byte serialization of its ledger info, so
//! the encoding must be reproducible byte for byte: every field is written
//! in a fixed order, integers little-endian in eight bytes, variable-length
//! fields length-prefixed.

use vstd::prelude::*;
use crate::types::{
    BlockInfo, BlockInfoV, EpochState, EpochStateV, LedgerInfo, LedgerInfoV,
    ValidatorConsensusInfo, ValidatorConsensusInfoV,
};

verus! {

/// Little-endian encoding of a 64-bit integer in exactly eight bytes.
pub open spec fn enc_u64(n: u64) -> Seq<u8> {
    seq![
        (n % 256) as u8,
        ((n / 0x100) % 256) as u8,
        ((n / 0x10000) % 256) as u8,
        ((n / 0x1000000) % 256) as u8,
        ((n / 0x100000000) % 256) as u8,
        ((n / 0x10000000000) % 256) as u8,
        ((n / 0x1000000000000) % 256) as u8,
        ((n / 0x100000000000000) % 256) as u8,
    ]
}

/// A variable-length byte field: its length, then its bytes.
pub open spec fn enc_bytes(b: Seq<u8>) -> Seq<u8> {
    enc_u64(b.len() as u64) + b
}

/// One validator record of an epoch's validator set.
pub open spec fn enc_validator_info(v: ValidatorConsensusInfoV) -> Seq<u8> {
    v.address + enc_bytes(v.public_key) + enc_u64(v.voting_power) + enc_u64(v.index)
        + enc_bytes(v.network_addresses) + enc_bytes(v.fullnode_addresses)
}

/// A validator list, records in order.
pub open spec fn enc_validator_list(s: Seq<ValidatorConsensusInfoV>) -> Seq<u8>
    decreases s.len(),
{
    if s.len() == 0 {
        Seq::empty()
    } else {
        enc_validator_list(s.drop_last()) + enc_validator_info(s.last())
    }
}

/// An epoch state: the epoch, the validator count, then the records.
pub open spec fn enc_epoch_state(es: EpochStateV) -> Seq<u8> {
    enc_u64(es.epoch) + enc_u64(es.validators.len() as u64) + enc_validator_list(es.validators)
}

/// An optional epoch state: a presence byte, then the state if present.
pub open spec fn enc_opt_epoch_state(o: Option<EpochStateV>) -> Seq<u8> {
    match o {
        None => seq![0u8],
        Some(es) => seq![1u8] + enc_epoch_state(es),
    }
}

/// A commit target, every field in declaration order.
pub open spec fn enc_block_info(b: BlockInfoV) -> Seq<u8> {
    enc_u64(b.epoch) + enc_u64(b.round) + b.id + b.executed_state_id + enc_u64(b.version)
        + enc_u64(b.timestamp_usecs) + enc_opt_epoch_state(b.next_epoch_state)
}

/// The signed form of a finality claim: its commit target, then the
/// consensus data hash.
#[verifier::opaque]
pub open spec fn enc_ledger_info(li: LedgerInfoV) -> Seq<u8> {
    enc_block_info(li.commit_info) + li.consensus_data_hash
}

/// Appends the little-endian bytes of `n`.
fn push_u64(buf: &mut Vec<u8>, n: u64)
    ensures
        final(buf)@ == old(buf)@ + enc_u64(n),
{
    buf.push((n % 256) as u8);
    buf.push(((n / 0x100) % 256) as u8);
    buf.push(((n / 0x10000) % 256) as u8);
    buf.push(((n / 0x1000000) % 256) as u8);
    buf.push(((n / 0x100000000) % 256) as u8);
    buf.push(((n / 0x10000000000) % 256) as u8);
    buf.push(((n / 0x1000000000000) % 256) as u8);
    buf.push(((n / 0x100000000000000) % 256) as u8);
    proof {
        assert(buf@ =~= old(buf)@ + enc_u64(n));
    }
}

/// Appends all bytes of a 32-byte array.
fn push_array32(buf: &mut Vec<u8>, a: &[u8; 32])
    ensures
        final(buf)@ == old(buf)@ + a@,
{
    for i in 0..32
        invariant
            buf@ =~= old(buf)@ + a@.subrange(0, i as int),
    {
        buf.push(a[i]);
    }
    proof {
        assert(buf@ =~= old(buf)@ + a@);
    }
}

/// Appends all bytes of `v`.
fn push_slice(buf: &mut Vec<u8>, v: &Vec<u8>)
    ensures
        final(buf)@ == old(buf)@ + v@,
{
    for i in 0..v.len()
        invariant
            buf@ =~= old(buf)@ + v@.subrange(0, i as int),
    {
        buf.push(v[i]);
    }
    proof {
        assert(buf@ =~= old(buf)@ + v@);
    }
}

/// Appends a length-prefixed byte field.
fn push_bytes_field(buf: &mut Vec<u8>, v: &Vec<u8>)
    ensures
        final(buf)@ == old(buf)@ + enc_bytes(v@),
{
    push_u64(buf, v.len() as u64);
    push_slice(buf, v);
    proof {
        assert(buf@ =~= old(buf)@ + enc_bytes(v@));
    }
}

/// Appends one validator record.
fn push_validator_info(buf: &mut Vec<u8>, v: &ValidatorConsensusInfo)
    ensures
        final(buf)@ == old(buf)@ + enc_validator_info(v@),
{
    push_array32(buf, &v.address.bytes);
    push_bytes_field(buf, &v.public_key);
    push_u64(buf, v.voting_power);
    push_u64(buf, v.index);
    push_bytes_field(buf, &v.network_addresses);
    push_bytes_field(buf, &v.fullnode_addresses);
    proof {
        assert(buf@ =~= old(buf)@ + enc_validator_info(v@));
    }
}

/// Appends an epoch state.
fn push_epoch_state(buf: &mut Vec<u8>, es: &EpochState)
    ensures
        final(buf)@ == old(buf)@ + enc_epoch_state(es@),
{
    push_u64(buf, es.epoch);
    push_u64(buf, es.validators.len() as u64);
    let ghost start = buf@;
    for i in 0..es.validators.len()
        invariant
            buf@ == start + enc_validator_list(es.validators.deep_view().subrange(0, i as int)),
    {
        push_validator_info(buf, &es.validators[i]);
        proof {
            let vs = es.validators.deep_view();
            assert(vs.subrange(0, i + 1).drop_last() =~= vs.subrange(0, i as int));
            assert(vs.subrange(0, i + 1).last() == vs[i as int]);
            assert(buf@ == start + enc_validator_list(vs.subrange(0, i + 1)));
        }
    }
    proof {
        let vs = es.validators.deep_view();
        assert(vs.subrange(0, vs.len() as int) =~= vs);
        assert(buf@ =~= old(buf)@ + enc_epoch_state(es@));
    }
}

/// Appends a commit target.
#[verifier::rlimit(40)]
fn push_block_info(buf: &mut Vec<u8>, b: &BlockInfo)
    ensures
        final(buf)@ == old(buf)@ + enc_block_info(b@),
{
    push_u64(buf, b.epoch);
    push_u64(buf, b.round);
    push_array32(buf, &b.id.bytes);
    push_array32(buf, &b.executed_state_id.bytes);
    push_u64(buf, b.version);
    push_u64(buf, b.timestamp_usecs);
    match &b.next_epoch_state {
        None => {
            buf.push(0u8);
        }
        Some(es) => {
            buf.push(1u8);
            push_epoch_state(buf, es);
        }
    }
    proof {
        assert(buf@ =~= old(buf)@ + enc_block_info(b@));
    }
}

/// The exact byte serialization of a ledger info: what a commit vote signs
/// and what a verifier checks a signature against.
pub fn ledger_info_bytes(li: &LedgerInfo) -> (r: Vec<u8>)
    ensures
        r@ == enc_ledger_info(li@),
{
    let mut buf: Vec<u8> = Vec::new();
    push_block_info(&mut buf, &li.commit_info);
    push_array32(&mut buf, &li.consensus_data_hash.bytes);
    proof {
        reveal(enc_ledger_info);
        assert(buf@ =~= enc_ledger_info(li@));
    }
    buf
}


/// Two integers with the same little-endian byte encoding are equal.
pub proof fn lemma_enc_u64_injective(a: u64, b: u64)
    requires
        enc_u64(a) == enc_u64(b),
    ensures
        a == b,
{
    let x = a as int;
    let y = b as int;
    assert(enc_u64(a)[0] == enc_u64(b)[0]);
    assert(enc_u64(a)[1] == enc_u64(b)[1]);
    assert(enc_u64(a)[2] == enc_u64(b)[2]);
    assert(enc_u64(a)[3] == enc_u64(b)[3]);
    assert(enc_u64(a)[4] == enc_u64(b)[4]);
    assert(enc_u64(a)[5] == enc_u64(b)[5]);
    assert(enc_u64(a)[6] == enc_u64(b)[6]);
    assert(enc_u64(a)[7] == enc_u64(b)[7]);
    assert(x / 0x100000000000000 < 0x100) by (nonlinear_arith)
        requires
            0 <= x < 0x10000000000000000,
    ;
    assert(y / 0x100000000000000 < 0x100) by (nonlinear_arith)
        requires
            0 <= y < 0x10000000000000000,
    ;
    assert(x / 0x100000000000000 == y / 0x100000000000000);
    lemma_quot_step(x, y, 0x1000000000000);
    lemma_quot_step(x, y, 0x10000000000);
    lemma_quot_step(x, y, 0x100000000);
    lemma_quot_step(x, y, 0x1000000);
    lemma_quot_step(x, y, 0x10000);
    lemma_quot_step(x, y, 0x100);
    lemma_quot_step(x, y, 1);
}

/// If `x / (256 * c) == y / (256 * c)` and `x / c` and `y / c` agree
/// modulo 256, then `x / c == y / c`.
proof fn lemma_quot_step(x: int, y: int, c: int)
    requires
        0 <= x,
        0 <= y,
        0 < c,
        x / (0x100 * c) == y / (0x100 * c),
        (x / c) % 0x100 == (y / c) % 0x100,
    ensures
        x / c == y / c,
{
    vstd::arithmetic::div_mod::lemma_div_denominator(x, c, 0x100);
    vstd::arithmetic::div_mod::lemma_div_denominator(y, c, 0x100);
    assert(x / c == 0x100 * ((x / c) / 0x100) + (x / c) % 0x100);
    assert(y / c == 0x100 * ((y / c) / 0x100) + (y / c) % 0x100);
}

/// Law: the canonical serialization pins down the commit key — two ledger
/// infos whose serializations agree commit the same epoch and the same
/// round.
#[verifier::rlimit(100)]
#[verifier::spinoff_prover]
pub proof fn lemma_enc_same_epoch_round(a: LedgerInfoV, b: LedgerInfoV)
    requires
        enc_ledger_info(a) == enc_ledger_info(b),
    ensures
        a.commit_info.epoch == b.commit_info.epoch,
        a.commit_info.round == b.commit_info.round,
{
    reveal(enc_ledger_info);
    let ea = enc_ledger_info(a);
    let eb = enc_ledger_info(b);
    assert(enc_u64(a.commit_info.epoch) =~= enc_u64(b.commit_info.epoch)) by {
        assert forall|k: int| 0 <= k < 8 implies enc_u64(a.commit_info.epoch)[k] == enc_u64(
            b.commit_info.epoch,
        )[k] by {
            assert(ea[k] == enc_u64(a.commit_info.epoch)[k]);
            assert(eb[k] == enc_u64(b.commit_info.epoch)[k]);
        }
    }
    lemma_enc_u64_injective(a.commit_info.epoch, b.commit_info.epoch);
    assert(enc_u64(a.commit_info.round) =~= enc_u64(b.commit_info.round)) by {
        assert forall|k: int| 0 <= k < 8 implies enc_u64(a.commit_info.round)[k] == enc_u64(
            b.commit_info.round,
        )[k] by {
            assert(ea[k + 8] == enc_u64(a.commit_info.round)[k]);
            assert(eb[k + 8] == enc_u64(b.commit_info.round)[k]);
        }
    }
    lemma_enc_u64_injective(a.commit_info.round, b.commit_info.round);
}

} // verus!
