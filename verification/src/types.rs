//! Core value types of the commit-certification layer: identities, hashes,
//! commit targets and finality claims, together with their mathematical views.

use vstd::prelude::*;

verus! {

broadcast use vstd::array::group_array_axioms;

/// A 32-byte content hash (block id, executed-state id, consensus data hash).
#[derive(Clone, Copy, Debug, PartialEq, Eq)]
pub struct HashValue {
    pub bytes: [u8; 32],
}

impl View for HashValue {
    type V = Seq<u8>;

    open spec fn view(&self) -> Seq<u8> {
        self.bytes@
    }
}

/// Compares two 32-byte arrays for element-wise equality.
fn bytes32_eq(a: &[u8; 32], b: &[u8; 32]) -> (r: bool)
    ensures
        r <==> a@ == b@,
{
    for i in 0..32
        invariant
            forall|j: int| 0 <= j < i ==> a@[j] == b@[j],
    {
        if a[i] != b[i] {
            return false;
        }
    }
    proof {
        assert(a@ =~= b@);
    }
    true
}

/// Copies a byte vector; the copy's view equals the original's.
pub fn clone_bytes(v: &Vec<u8>) -> (r: Vec<u8>)
    ensures
        r@ == v@,
{
    let mut r: Vec<u8> = Vec::new();
    for i in 0..v.len()
        invariant
            r@ =~= v@.subrange(0, i as int),
    {
        r.push(v[i]);
    }
    proof {
        assert(r@ =~= v@);
    }
    r
}

/// Compares two byte vectors for element-wise equality.
pub fn bytes_eq(a: &Vec<u8>, b: &Vec<u8>) -> (r: bool)
    ensures
        r <==> a@ == b@,
{
    if a.len() != b.len() {
        return false;
    }
    for i in 0..a.len()
        invariant
            a@.len() == b@.len(),
            forall|j: int| 0 <= j < i ==> a@[j] == b@[j],
    {
        if a[i] != b[i] {
            return false;
        }
    }
    proof {
        assert(a@ =~= b@);
    }
    true
}

impl HashValue {
    pub fn new(bytes: [u8; 32]) -> (r: Self)
        ensures
            r@ == bytes@,
    {
        HashValue { bytes }
    }

    pub fn equals(&self, other: &HashValue) -> (r: bool)
        ensures
            r <==> self@ == other@,
            r <==> *self == *other,
    {
        let r = bytes32_eq(&self.bytes, &other.bytes);
        proof {
            if self.bytes@ == other.bytes@ {
                assert(self.bytes =~= other.bytes);
            }
        }
        r
    }
}

/// A validator identity: an opaque fixed-size address, unique per epoch.
#[derive(Clone, Copy, Debug, PartialEq, Eq)]
pub struct Author {
    pub bytes: [u8; 32],
}

impl View for Author {
    type V = Seq<u8>;

    open spec fn view(&self) -> Seq<u8> {
        self.bytes@
    }
}

impl DeepView for Author {
    type V = Seq<u8>;

    open spec fn deep_view(&self) -> Seq<u8> {
        self.view()
    }
}

impl Author {
    pub fn new(bytes: [u8; 32]) -> (r: Self)
        ensures
            r@ == bytes@,
    {
        Author { bytes }
    }

    pub fn equals(&self, other: &Author) -> (r: bool)
        ensures
            r <==> self@ == other@,
            r <==> *self == *other,
    {
        let r = bytes32_eq(&self.bytes, &other.bytes);
        proof {
            if self.bytes@ == other.bytes@ {
                assert(self.bytes =~= other.bytes);
            }
        }
        r
    }

    /// The identity as lowercase hex text, as listings print it.
    pub fn to_hex(&self) -> (r: String)
        ensures
            r@ == crate::hexutil::hex_encoded(self@),
    {
        let mut bytes: Vec<u8> = Vec::new();
        for i in 0..32
            invariant
                bytes@ =~= self.bytes@.subrange(0, i as int),
        {
            bytes.push(self.bytes[i]);
        }
        proof {
            assert(bytes@ =~= self@);
        }
        crate::hexutil::hex_encode_bytes(&bytes)
    }
}

/// Mathematical view of a [`ValidatorConsensusInfo`].
#[verifier::ext_equal]
pub ghost struct ValidatorConsensusInfoV {
    pub address: Seq<u8>,
    pub public_key: Seq<u8>,
    pub voting_power: u64,
    pub index: u64,
    pub network_addresses: Seq<u8>,
    pub fullnode_addresses: Seq<u8>,
}

/// Per-validator record of one epoch: identity, public key, voting power,
/// position in the active set, and network endpoints. Immutable within an epoch.
#[derive(Debug, PartialEq, Eq)]
pub struct ValidatorConsensusInfo {
    pub address: Author,
    pub public_key: Vec<u8>,
    pub voting_power: u64,
    pub index: u64,
    pub network_addresses: Vec<u8>,
    pub fullnode_addresses: Vec<u8>,
}

impl View for ValidatorConsensusInfo {
    type V = ValidatorConsensusInfoV;

    open spec fn view(&self) -> ValidatorConsensusInfoV {
        ValidatorConsensusInfoV {
            address: self.address@,
            public_key: self.public_key@,
            voting_power: self.voting_power,
            index: self.index,
            network_addresses: self.network_addresses@,
            fullnode_addresses: self.fullnode_addresses@,
        }
    }
}

impl DeepView for ValidatorConsensusInfo {
    type V = ValidatorConsensusInfoV;

    open spec fn deep_view(&self) -> ValidatorConsensusInfoV {
        self.view()
    }
}

impl Clone for ValidatorConsensusInfo {
    fn clone(&self) -> (r: Self)
        ensures
            r@ == self@,
    {
        ValidatorConsensusInfo {
            address: self.address,
            public_key: clone_bytes(&self.public_key),
            voting_power: self.voting_power,
            index: self.index,
            network_addresses: clone_bytes(&self.network_addresses),
            fullnode_addresses: clone_bytes(&self.fullnode_addresses),
        }
    }
}

impl ValidatorConsensusInfo {
    pub fn equals(&self, other: &ValidatorConsensusInfo) -> (r: bool)
        ensures
            r <==> self@ == other@,
    {
        let r = self.address.equals(&other.address) && bytes_eq(&self.public_key, &other.public_key)
            && self.voting_power == other.voting_power && self.index == other.index
            && bytes_eq(&self.network_addresses, &other.network_addresses)
            && bytes_eq(&self.fullnode_addresses, &other.fullnode_addresses);
        proof {
            if r {
                assert(self@ =~= other@);
            }
        }
        r
    }

    /// The consensus public key as lowercase hex text, as listings print
    /// it.
    pub fn public_key_hex(&self) -> (r: String)
        ensures
            r@ == crate::hexutil::hex_encoded(self.public_key@),
    {
        crate::hexutil::hex_encode_bytes(&self.public_key)
    }
}

/// Mathematical view of an [`EpochState`].
#[verifier::ext_equal]
pub ghost struct EpochStateV {
    pub epoch: u64,
    pub validators: Seq<ValidatorConsensusInfoV>,
}

/// The validator set that becomes active at the start of an epoch.
#[derive(Debug, PartialEq, Eq)]
pub struct EpochState {
    pub epoch: u64,
    pub validators: Vec<ValidatorConsensusInfo>,
}

impl View for EpochState {
    type V = EpochStateV;

    open spec fn view(&self) -> EpochStateV {
        EpochStateV { epoch: self.epoch, validators: self.validators.deep_view() }
    }
}

impl Clone for EpochState {
    fn clone(&self) -> (r: Self)
        ensures
            r@ == self@,
    {
        let mut validators: Vec<ValidatorConsensusInfo> = Vec::new();
        for i in 0..self.validators.len()
            invariant
                validators@.len() == i,
                forall|j: int| 0 <= j < i
                    ==> validators.deep_view()[j] == self.validators.deep_view()[j],
        {
            let ghost pre = validators;
            let c = self.validators[i].clone();
            validators.push(c);
            proof {
                assert forall|j: int| 0 <= j < i + 1 implies validators.deep_view()[j]
                    == self.validators.deep_view()[j] by {
                    assert(validators@.len() == i + 1);
                    assert(validators.deep_view()[j] == validators@[j].deep_view());
                    assert(self.validators.deep_view()[j] == self.validators@[j].deep_view());
                    if j == i {
                        assert(validators@[j] == c);
                        assert(c@ == self.validators@[j]@);
                    } else {
                        assert(validators@[j] == pre@[j]);
                        assert(pre.deep_view()[j] == pre@[j].deep_view());
                    }
                }
            }
        }
        proof {
            assert(validators.deep_view() =~= self.validators.deep_view());
        }
        EpochState { epoch: self.epoch, validators }
    }
}

impl EpochState {
    pub fn equals(&self, other: &EpochState) -> (r: bool)
        ensures
            r <==> self@ == other@,
    {
        proof {
            assert(self@.validators.len() == self.validators@.len());
            assert(other@.validators.len() == other.validators@.len());
        }
        if self.epoch != other.epoch {
            return false;
        }
        if self.validators.len() != other.validators.len() {
            return false;
        }
        for i in 0..self.validators.len()
            invariant
                self.validators@.len() == other.validators@.len(),
                forall|j: int| 0 <= j < i
                    ==> self.validators.deep_view()[j] == other.validators.deep_view()[j],
        {
            if !self.validators[i].equals(&other.validators[i]) {
                proof {
                    assert(self.validators.deep_view()[i as int]
                        != other.validators.deep_view()[i as int]);
                }
                return false;
            }
        }
        proof {
            assert(self.validators.deep_view() =~= other.validators.deep_view());
            assert(self@ =~= other@);
        }
        true
    }
}

/// Mathematical view of a [`BlockInfo`].
#[verifier::ext_equal]
pub ghost struct BlockInfoV {
    pub epoch: u64,
    pub round: u64,
    pub id: Seq<u8>,
    pub executed_state_id: Seq<u8>,
    pub version: u64,
    pub timestamp_usecs: u64,
    pub next_epoch_state: Option<EpochStateV>,
}

/// The commit target of a vote: which block, in which epoch and round,
/// executed to which state. Immutable once created.
#[derive(Debug, PartialEq, Eq)]
pub struct BlockInfo {
    pub epoch: u64,
    pub round: u64,
    pub id: HashValue,
    pub executed_state_id: HashValue,
    pub version: u64,
    pub timestamp_usecs: u64,
    pub next_epoch_state: Option<EpochState>,
}

impl View for BlockInfo {
    type V = BlockInfoV;

    open spec fn view(&self) -> BlockInfoV {
        BlockInfoV {
            epoch: self.epoch,
            round: self.round,
            id: self.id@,
            executed_state_id: self.executed_state_id@,
            version: self.version,
            timestamp_usecs: self.timestamp_usecs,
            next_epoch_state: match self.next_epoch_state {
                Some(es) => Some(es@),
                None => None,
            },
        }
    }
}

impl Clone for BlockInfo {
    fn clone(&self) -> (r: Self)
        ensures
            r@ == self@,
    {
        BlockInfo {
            epoch: self.epoch,
            round: self.round,
            id: self.id,
            executed_state_id: self.executed_state_id,
            version: self.version,
            timestamp_usecs: self.timestamp_usecs,
            next_epoch_state: match &self.next_epoch_state {
                Some(es) => Some(es.clone()),
                None => None,
            },
        }
    }
}

impl BlockInfo {
    pub fn equals(&self, other: &BlockInfo) -> (r: bool)
        ensures
            r <==> self@ == other@,
    {
        let scalar_eq = self.epoch == other.epoch && self.round == other.round
            && self.version == other.version && self.timestamp_usecs == other.timestamp_usecs
            && self.id.equals(&other.id) && self.executed_state_id.equals(&other.executed_state_id);
        if !scalar_eq {
            return false;
        }
        let next_eq = match (&self.next_epoch_state, &other.next_epoch_state) {
            (Some(a), Some(b)) => a.equals(b),
            (None, None) => true,
            _ => false,
        };
        proof {
            if scalar_eq && next_eq {
                assert(self@ =~= other@);
            }
        }
        next_eq
    }
}

/// Mathematical view of a [`LedgerInfo`].
#[verifier::ext_equal]
pub ghost struct LedgerInfoV {
    pub commit_info: BlockInfoV,
    pub consensus_data_hash: Seq<u8>,
}

/// A finality claim: a commit target bound to a hash of the additional
/// consensus metadata. Two ledger infos with equal (epoch, round) but unequal
/// commit info signal equivocation.
#[derive(Debug, PartialEq, Eq)]
pub struct LedgerInfo {
    pub commit_info: BlockInfo,
    pub consensus_data_hash: HashValue,
}

impl View for LedgerInfo {
    type V = LedgerInfoV;

    open spec fn view(&self) -> LedgerInfoV {
        LedgerInfoV { commit_info: self.commit_info@, consensus_data_hash: self.consensus_data_hash@ }
    }
}

impl Clone for LedgerInfo {
    fn clone(&self) -> (r: Self)
        ensures
            r@ == self@,
    {
        LedgerInfo {
            commit_info: self.commit_info.clone(),
            consensus_data_hash: self.consensus_data_hash,
        }
    }
}

impl LedgerInfo {
    pub fn new(commit_info: BlockInfo, consensus_data_hash: HashValue) -> (r: Self)
        ensures
            r@ == (LedgerInfoV { commit_info: commit_info@, consensus_data_hash: consensus_data_hash@ }),
    {
        LedgerInfo { commit_info, consensus_data_hash }
    }

    pub fn commit_info(&self) -> (r: &BlockInfo)
        ensures
            r@ == self@.commit_info,
    {
        &self.commit_info
    }

    pub fn epoch(&self) -> (r: u64)
        ensures
            r == self@.commit_info.epoch,
    {
        self.commit_info.epoch
    }

    pub fn round(&self) -> (r: u64)
        ensures
            r == self@.commit_info.round,
    {
        self.commit_info.round
    }

    pub fn equals(&self, other: &LedgerInfo) -> (r: bool)
        ensures
            r <==> self@ == other@,
    {
        let r = self.commit_info.equals(&other.commit_info)
            && self.consensus_data_hash.equals(&other.consensus_data_hash);
        proof {
            if r {
                assert(self@ =~= other@);
            }
        }
        r
    }
}

/// Mathematical view of a [`Block`].
#[verifier::ext_equal]
pub ghost struct BlockV {
    pub epoch: u64,
    pub round: u64,
    pub id: Seq<u8>,
    pub payload: Seq<u8>,
}

/// An executed block as persisted by the ledger store, keyed by (epoch, round).
#[derive(Debug, PartialEq, Eq)]
pub struct Block {
    pub epoch: u64,
    pub round: u64,
    pub id: HashValue,
    pub payload: Vec<u8>,
}

impl View for Block {
    type V = BlockV;

    open spec fn view(&self) -> BlockV {
        BlockV { epoch: self.epoch, round: self.round, id: self.id@, payload: self.payload@ }
    }
}

impl Clone for Block {
    fn clone(&self) -> (r: Self)
        ensures
            r@ == self@,
    {
        Block {
            epoch: self.epoch,
            round: self.round,
            id: self.id,
            payload: clone_bytes(&self.payload),
        }
    }
}

impl Block {
    pub fn equals(&self, other: &Block) -> (r: bool)
        ensures
            r <==> self@ == other@,
    {
        let r = self.epoch == other.epoch && self.round == other.round && self.id.equals(&other.id)
            && bytes_eq(&self.payload, &other.payload);
        proof {
            if r {
                assert(self@ =~= other@);
            }
        }
        r
    }
}

} // verus!
