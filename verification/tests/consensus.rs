use gravity_consensus::aggregator::{AddOutcome, AggregatorError, QuorumAggregator};
use gravity_consensus::codec::ledger_info_bytes;
use gravity_consensus::commit_vote::CommitVote;
use gravity_consensus::signer::ValidatorSigner;
use gravity_consensus::store::LedgerStore;
use gravity_consensus::types::{
    Author, Block, BlockInfo, EpochState, HashValue, LedgerInfo, ValidatorConsensusInfo,
};
use gravity_consensus::validator_verifier::{ValidatorVerifier, VerifyError};

fn author(n: u8) -> Author {
    Author::new([n; 32])
}

fn signer(n: u8) -> ValidatorSigner {
    ValidatorSigner::new(author(n), vec![n.wrapping_add(1); 32]).unwrap()
}

fn validator_set(powers: &[u64]) -> (Vec<ValidatorSigner>, ValidatorVerifier) {
    let mut signers = Vec::new();
    let mut infos = Vec::new();
    for (i, p) in powers.iter().enumerate() {
        let s = signer(i as u8);
        infos.push(ValidatorConsensusInfo {
            address: s.author(),
            public_key: s.public_key(),
            voting_power: *p,
            index: 0,
            network_addresses: Vec::new(),
            fullnode_addresses: Vec::new(),
        });
        signers.push(s);
    }
    let vv = ValidatorVerifier::new(7, infos).expect("distinct addresses");
    (signers, vv)
}

fn ledger_info(epoch: u64, round: u64, tag: u8) -> LedgerInfo {
    LedgerInfo::new(
        BlockInfo {
            epoch,
            round,
            id: HashValue::new([tag; 32]),
            executed_state_id: HashValue::new([tag.wrapping_add(1); 32]),
            version: 42,
            timestamp_usecs: 1_000_000,
            next_epoch_state: None,
        },
        HashValue::new([tag.wrapping_add(2); 32]),
    )
}

#[test]
fn quorum_threshold_matches_formula() {
    let (_, vv) = validator_set(&[25, 25, 25, 25]);
    assert_eq!(vv.total_voting_power(), 100);
    assert_eq!(vv.quorum_threshold(), 67);
    let (_, vv) = validator_set(&[10, 20, 30, 40]);
    assert_eq!(vv.total_voting_power(), 100);
    assert_eq!(vv.quorum_threshold(), 67);
    let (_, vv) = validator_set(&[1]);
    assert_eq!(vv.quorum_threshold(), 1);
    let (_, vv) = validator_set(&[1, 1, 1]);
    // T = 3 => floor(6 / 3) + 1 = 3
    assert_eq!(vv.quorum_threshold(), 3);
}

#[test]
fn equal_powers_three_of_four_certify() {
    let (signers, vv) = validator_set(&[25, 25, 25, 25]);
    let target = ledger_info(7, 3, 9);
    let mut agg = QuorumAggregator::new(vv, ledger_info(7, 3, 9));
    let v0 = CommitVote::new(signers[0].author(), ledger_info(7, 3, 9), &signers[0]);
    let v1 = CommitVote::new(signers[1].author(), ledger_info(7, 3, 9), &signers[1]);
    let v2 = CommitVote::new(signers[2].author(), ledger_info(7, 3, 9), &signers[2]);

    assert!(matches!(agg.add_vote(&v0), Ok(AddOutcome::Added)));
    assert!(agg.certificate().is_none());
    assert!(matches!(agg.add_vote(&v1), Ok(AddOutcome::Added)));
    assert!(agg.certificate().is_none());
    assert_eq!(agg.power, 50);

    // re-delivering an already-counted vote leaves the sum at 50, not 75
    assert!(matches!(agg.add_vote(&v1), Ok(AddOutcome::Duplicate)));
    assert_eq!(agg.power, 50);

    let out = agg.add_vote(&v2);
    let qc = match out {
        Ok(AddOutcome::Certified(qc)) => qc,
        other => panic!("expected certification, got {other:?}"),
    };
    assert_eq!(agg.power, 75);
    assert!(qc.ledger_info().equals(&target));
    assert_eq!(qc.signatures().signers.len(), 3);
    assert!(agg.certificate().is_some());

    // the certificate the aggregator built verifies as an aggregate
    assert!(qc.verify(&agg.verifier));

    // every subsequent valid vote is acknowledged as already certified
    let v3 = CommitVote::new(signers[3].author(), ledger_info(7, 3, 9), &signers[3]);
    assert!(matches!(agg.add_vote(&v3), Ok(AddOutcome::AlreadyCertified)));
    // and the fixed certificate never changes
    let held = agg.certificate().unwrap();
    assert!(held.ledger_info().equals(&target));
    assert_eq!(held.signatures().signers.len(), 3);
}

#[test]
fn heavy_validators_certify_light_ones_do_not() {
    // validator set [10, 20, 30, 40]: T = 100, Q = 67
    let (signers, vv) = validator_set(&[10, 20, 30, 40]);
    let mut agg = QuorumAggregator::new(vv, ledger_info(7, 4, 5));
    let v3 = CommitVote::new(signers[3].author(), ledger_info(7, 4, 5), &signers[3]);
    let v2 = CommitVote::new(signers[2].author(), ledger_info(7, 4, 5), &signers[2]);
    assert!(matches!(agg.add_vote(&v3), Ok(AddOutcome::Added)));
    let out = agg.add_vote(&v2);
    // 40 + 30 = 70 >= 67
    assert!(matches!(out, Ok(AddOutcome::Certified(_))));

    let (signers, vv) = validator_set(&[10, 20, 30, 40]);
    let mut agg = QuorumAggregator::new(vv, ledger_info(7, 4, 5));
    let v0 = CommitVote::new(signers[0].author(), ledger_info(7, 4, 5), &signers[0]);
    let v1 = CommitVote::new(signers[1].author(), ledger_info(7, 4, 5), &signers[1]);
    assert!(matches!(agg.add_vote(&v0), Ok(AddOutcome::Added)));
    assert!(matches!(agg.add_vote(&v1), Ok(AddOutcome::Added)));
    // 10 + 20 = 30 < 67: no certificate, in either arrival order
    assert!(agg.certificate().is_none());
    assert_eq!(agg.power, 30);
}

#[test]
fn below_quorum_no_certificate_any_order() {
    for order in [[0usize, 1], [1, 0]] {
        let (signers, vv) = validator_set(&[25, 25, 25, 25]);
        let mut agg = QuorumAggregator::new(vv, ledger_info(7, 3, 9));
        for &i in &order {
            let v = CommitVote::new(signers[i].author(), ledger_info(7, 3, 9), &signers[i]);
            assert!(matches!(agg.add_vote(&v), Ok(AddOutcome::Added)));
        }
        assert!(agg.certificate().is_none());
    }
}

#[test]
fn equivocation_is_reported_and_changes_nothing() {
    let (signers, vv) = validator_set(&[25, 25, 25, 25]);
    let mut agg = QuorumAggregator::new(vv, ledger_info(7, 3, 9));
    let v0 = CommitVote::new(signers[0].author(), ledger_info(7, 3, 9), &signers[0]);
    assert!(matches!(agg.add_vote(&v0), Ok(AddOutcome::Added)));
    assert_eq!(agg.power, 25);

    // same round, conflicting ledger info
    let conflicting = ledger_info(7, 3, 77);
    let v1 = CommitVote::new(signers[1].author(), ledger_info(7, 3, 77), &signers[1]);
    match agg.add_vote(&v1) {
        Err(AggregatorError::Equivocation { author, first, second }) => {
            assert_eq!(author, signers[1].author());
            assert!(first.equals(&ledger_info(7, 3, 9)));
            assert!(second.equals(&conflicting));
        }
        other => panic!("expected equivocation, got {other:?}"),
    }
    // the accumulated voting power is untouched
    assert_eq!(agg.power, 25);
    assert_eq!(agg.signers.len(), 1);
    assert!(agg.certificate().is_none());
}

#[test]
fn unknown_author_is_rejected() {
    let (_, vv) = validator_set(&[25, 25, 25, 25]);
    let outsider = signer(200);
    let vote = CommitVote::new(outsider.author(), ledger_info(7, 3, 9), &outsider);
    assert_eq!(vote.verify(&vv), Err(VerifyError::UnknownAuthor));
    let mut agg = QuorumAggregator::new(vv, ledger_info(7, 3, 9));
    assert!(matches!(agg.add_vote(&vote), Err(AggregatorError::UnknownAuthor)));
    assert_eq!(agg.power, 0);
}

#[test]
fn tampered_signature_fails_verification() {
    let (signers, vv) = validator_set(&[25, 25, 25, 25]);
    let vote = CommitVote::new(signers[0].author(), ledger_info(7, 3, 9), &signers[0]);
    assert_eq!(vote.verify(&vv), Ok(()));

    // flip a single byte of the signature
    for byte in 0..64 {
        let mut sig = vote.signature().clone();
        sig[byte] ^= 0x01;
        let tampered = CommitVote::new_with_signature(
            signers[0].author(),
            ledger_info(7, 3, 9),
            sig,
        );
        assert_eq!(tampered.verify(&vv), Err(VerifyError::InvalidSignature));
    }
}

#[test]
fn tampered_ledger_info_fails_verification() {
    let (signers, vv) = validator_set(&[25, 25, 25, 25]);
    let vote = CommitVote::new(signers[0].author(), ledger_info(7, 3, 9), &signers[0]);
    assert_eq!(vote.verify(&vv), Ok(()));

    // the same signature over a ledger info whose serialization differs in
    // one field is rejected
    let mut changed = ledger_info(7, 3, 9);
    changed.commit_info.version += 1;
    let tampered = CommitVote::new_with_signature(
        signers[0].author(),
        changed,
        vote.signature().clone(),
    );
    assert_eq!(tampered.verify(&vv), Err(VerifyError::InvalidSignature));

    let mut changed = ledger_info(7, 3, 9);
    changed.consensus_data_hash.bytes[31] ^= 0x80;
    let tampered = CommitVote::new_with_signature(
        signers[0].author(),
        changed,
        vote.signature().clone(),
    );
    assert_eq!(tampered.verify(&vv), Err(VerifyError::InvalidSignature));
}

#[test]
fn tampered_aggregate_fails_verification() {
    let (signers, vv) = validator_set(&[25, 25, 25, 25]);
    let mut agg = QuorumAggregator::new(vv, ledger_info(7, 3, 9));
    for i in 0..3 {
        let v = CommitVote::new(signers[i].author(), ledger_info(7, 3, 9), &signers[i]);
        agg.add_vote(&v).unwrap();
    }
    let mut qc = agg.certificate().unwrap().clone();
    assert!(qc.verify(&agg.verifier));
    qc.signatures.signatures[1][17] ^= 0x01;
    assert!(!qc.verify(&agg.verifier));
}

#[test]
fn ledger_info_serialization_is_canonical() {
    let a = ledger_info(1, 2, 3);
    let b = ledger_info(1, 2, 3);
    assert_eq!(ledger_info_bytes(&a), ledger_info_bytes(&b));
    // little-endian epoch in the first eight bytes
    assert_eq!(&ledger_info_bytes(&a)[0..8], &[1, 0, 0, 0, 0, 0, 0, 0]);
    // round follows
    assert_eq!(&ledger_info_bytes(&a)[8..16], &[2, 0, 0, 0, 0, 0, 0, 0]);
    let c = ledger_info(1, 3, 3);
    assert_ne!(ledger_info_bytes(&a), ledger_info_bytes(&c));

    // an embedded next-epoch state round-trips through the encoder too
    let mut with_epoch_state = ledger_info(1, 2, 3);
    with_epoch_state.commit_info.next_epoch_state = Some(EpochState {
        epoch: 2,
        validators: vec![ValidatorConsensusInfo {
            address: author(9),
            public_key: vec![1, 2, 3],
            voting_power: 11,
            index: 0,
            network_addresses: vec![4],
            fullnode_addresses: vec![5],
        }],
    });
    assert_ne!(ledger_info_bytes(&a), ledger_info_bytes(&with_epoch_state));
}

#[test]
fn store_put_then_get_round_trips() {
    let mut store = LedgerStore::new();
    assert!(store.get_block(1, 1).is_none());

    let block = Block { epoch: 1, round: 1, id: HashValue::new([1; 32]), payload: vec![1, 2, 3] };
    store.put_block(1, 1, block.clone()).unwrap();
    let read = store.get_block(1, 1).expect("read after write");
    assert!(read.equals(&block));

    // an unwritten key is a miss, not an error
    assert!(store.get_block(1, 2).is_none());
    assert!(store.get_block(2, 1).is_none());

    // write-once: identical rewrite is fine, different content is rejected
    assert!(store.put_block(1, 1, block.clone()).is_ok());
    let mut other = block.clone();
    other.payload = vec![9];
    assert!(store.put_block(1, 1, other).is_err());
    assert!(store.get_block(1, 1).unwrap().equals(&block));
}

#[test]
fn store_qc_and_ledger_info_round_trip() {
    let (signers, vv) = validator_set(&[25, 25, 25, 25]);
    let mut agg = QuorumAggregator::new(vv, ledger_info(7, 3, 9));
    for i in 0..3 {
        let v = CommitVote::new(signers[i].author(), ledger_info(7, 3, 9), &signers[i]);
        agg.add_vote(&v).unwrap();
    }
    let qc = agg.certificate().unwrap().clone();

    let mut store = LedgerStore::new();
    assert!(store.get_qc(7, 3).is_none());
    store.put_qc(7, 3, qc.clone()).unwrap();
    let read = store.get_qc(7, 3).expect("read after write");
    assert!(read.ledger_info().equals(qc.ledger_info()));

    store.put_ledger_info(7, ledger_info(7, 3, 9)).unwrap();
    assert!(store.get_ledger_info_by_epoch(7).unwrap().equals(&ledger_info(7, 3, 9)));
    assert!(store.get_ledger_info_by_epoch(8).is_none());
    // rewriting the epoch with a different claim is rejected
    assert!(store.put_ledger_info(7, ledger_info(7, 4, 9)).is_err());
}

#[test]
fn latest_ledger_info_is_the_highest() {
    let mut store = LedgerStore::new();
    assert!(store.latest_ledger_info().is_none());
    store.put_ledger_info(1, ledger_info(1, 5, 1)).unwrap();
    store.put_ledger_info(3, ledger_info(3, 2, 2)).unwrap();
    store.put_ledger_info(2, ledger_info(2, 9, 3)).unwrap();
    let latest = store.latest_ledger_info().unwrap();
    assert_eq!(latest.epoch(), 3);
    assert_eq!(latest.round(), 2);
}

#[test]
fn validator_count_comes_from_the_next_epoch_state() {
    let mut store = LedgerStore::new();
    assert_eq!(store.get_validator_count_by_epoch(1), None);

    let mut li = ledger_info(1, 8, 4);
    li.commit_info.next_epoch_state = Some(EpochState {
        epoch: 2,
        validators: vec![
            ValidatorConsensusInfo {
                address: author(1),
                public_key: vec![0; 32],
                voting_power: 10,
                index: 0,
                network_addresses: Vec::new(),
                fullnode_addresses: Vec::new(),
            },
            ValidatorConsensusInfo {
                address: author(2),
                public_key: vec![0; 32],
                voting_power: 10,
                index: 0,
                network_addresses: Vec::new(),
                fullnode_addresses: Vec::new(),
            },
        ],
    });
    store.put_ledger_info(1, li).unwrap();
    assert_eq!(store.get_validator_count_by_epoch(1), Some(2));

    // an epoch whose ledger info carries no next-epoch state reports none
    store.put_ledger_info(5, ledger_info(5, 1, 6)).unwrap();
    assert_eq!(store.get_validator_count_by_epoch(5), None);
}

#[test]
fn duplicate_addresses_are_rejected_by_the_verifier() {
    let s = signer(1);
    let info = ValidatorConsensusInfo {
        address: s.author(),
        public_key: s.public_key(),
        voting_power: 10,
        index: 0,
        network_addresses: Vec::new(),
        fullnode_addresses: Vec::new(),
    };
    let dup = info.clone();
    assert!(ValidatorVerifier::new(1, vec![info, dup]).is_none());
}

#[test]
fn abandoned_round_never_certifies() {
    let (signers, vv) = validator_set(&[25, 25, 25, 25]);
    let mut agg = QuorumAggregator::new(vv, ledger_info(7, 3, 9));
    let v0 = CommitVote::new(signers[0].author(), ledger_info(7, 3, 9), &signers[0]);
    assert!(matches!(agg.add_vote(&v0), Ok(AddOutcome::Added)));
    agg.abandon();
    for i in 1..4 {
        let v = CommitVote::new(signers[i].author(), ledger_info(7, 3, 9), &signers[i]);
        assert!(matches!(agg.add_vote(&v), Ok(AddOutcome::Abandoned)));
    }
    // all four voted (power 100 >= 67), yet no certificate was produced
    assert_eq!(agg.power, 100);
    assert!(agg.certificate().is_none());
}

#[test]
fn vote_accessors_read_the_claim() {
    let s = signer(4);
    let li = ledger_info(11, 13, 2);
    let vote = CommitVote::new(s.author(), ledger_info(11, 13, 2), &s);
    assert_eq!(vote.epoch(), 11);
    assert_eq!(vote.round(), 13);
    assert_eq!(vote.author(), s.author());
    assert!(vote.ledger_info().equals(&li));
    assert!(vote.commit_info().equals(&li.commit_info));
    assert_eq!(vote.signature().len(), 64);
    // signing is deterministic: the same inputs give the same vote
    let again = CommitVote::new(s.author(), ledger_info(11, 13, 2), &s);
    assert_eq!(vote.signature(), again.signature());
}

#[test]
fn duplicates_after_certification_stay_duplicates() {
    let (signers, vv) = validator_set(&[25, 25, 25, 25]);
    let mut agg = QuorumAggregator::new(vv, ledger_info(7, 3, 9));
    for i in 0..3 {
        let v = CommitVote::new(signers[i].author(), ledger_info(7, 3, 9), &signers[i]);
        agg.add_vote(&v).unwrap();
    }
    assert!(agg.certificate().is_some());
    let power = agg.power;
    // a repeat of an already-counted vote is a duplicate, not a late vote
    let v0 = CommitVote::new(signers[0].author(), ledger_info(7, 3, 9), &signers[0]);
    assert!(matches!(agg.add_vote(&v0), Ok(AddOutcome::Duplicate)));
    assert_eq!(agg.power, power);
}
