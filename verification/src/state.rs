//! The committed chain state: one snapshot per block, owned exclusively by
//! the block execution that mutates its copy. Each module's data lives in its
//! own field (its storage namespace); no module touches another's.

use vstd::prelude::*;
use crate::block::mix64;
use crate::block::mix64_step;
use crate::extrinsic::Hash64;
use crate::registry::{AccountId, Balance};

verus! {

/// What the system module stores for one account.
#[derive(Clone, Copy, Debug, PartialEq, Eq, Structural)]
pub struct AccountInfo {
    /// The next nonce a signed extrinsic of this account must carry.
    pub nonce: u32,
    /// The spendable balance.
    pub balance: Balance,
}

/// The account an id maps to: the first binding in the store, or the fresh
/// (zero) account when the id was never written. Later bindings shadow
/// earlier history, so the store reads as a map.
pub open spec fn account_of(s: Seq<(AccountId, AccountInfo)>, who: AccountId) -> AccountInfo
    decreases s.len(),
{
    if s.len() == 0 {
        AccountInfo { nonce: 0, balance: 0 }
    } else if s[0].0 == who {
        s[0].1
    } else {
        account_of(s.drop_first(), who)
    }
}

/// Block-production (slot leadership) parameters committed in state.
pub struct BabeState {
    /// The current epoch's authorities as (public key, voting weight) pairs.
    pub authorities: Vec<(u64, u64)>,
    /// The first slot the chain ever produced in.
    pub genesis_slot: u64,
    /// How many epochs have elapsed since the genesis slot.
    pub epoch_index: u64,
}

/// The mathematical value of the block-production state.
#[verifier::ext_equal]
pub struct BabeModel {
    pub authorities: Seq<(u64, u64)>,
    pub genesis_slot: u64,
    pub epoch_index: u64,
}

impl View for BabeState {
    type V = BabeModel;

    open spec fn view(&self) -> BabeModel {
        BabeModel {
            authorities: self.authorities@,
            genesis_slot: self.genesis_slot,
            epoch_index: self.epoch_index,
        }
    }
}

/// Finality-voting parameters committed in state.
pub struct GrandpaState {
    /// The current authority set as (public key, voting weight) pairs.
    pub authorities: Vec<(u64, u64)>,
    /// Incremented whenever the set changes.
    pub set_id: u64,
}

/// The mathematical value of the finality state.
#[verifier::ext_equal]
pub struct GrandpaModel {
    pub authorities: Seq<(u64, u64)>,
    pub set_id: u64,
}

impl View for GrandpaState {
    type V = GrandpaModel;

    open spec fn view(&self) -> GrandpaModel {
        GrandpaModel { authorities: self.authorities@, set_id: self.set_id }
    }
}

/// A committed state snapshot.
pub struct ChainState {
    /// Hash of block zero; identifies the chain.
    pub genesis_hash: Hash64,
    /// Hash of every block so far, indexed by block number; the last entry is
    /// the parent the next block builds on.
    pub block_hashes: Vec<Hash64>,
    /// The system module's account store.
    pub accounts: Vec<(AccountId, AccountInfo)>,
    /// The timestamp module's committed value.
    pub timestamp_now: u64,
    /// The randomness module's rolling seed over recent block hashes.
    pub randomness: u64,
    /// The block-production module's state.
    pub babe: BabeState,
    /// The finality module's state.
    pub grandpa: GrandpaState,
}

/// The mathematical value of a state snapshot.
#[verifier::ext_equal]
pub struct StateModel {
    pub genesis_hash: Hash64,
    pub block_hashes: Seq<Hash64>,
    pub accounts: Seq<(AccountId, AccountInfo)>,
    pub timestamp_now: u64,
    pub randomness: u64,
    pub babe: BabeModel,
    pub grandpa: GrandpaModel,
}

impl View for ChainState {
    type V = StateModel;

    open spec fn view(&self) -> StateModel {
        StateModel {
            genesis_hash: self.genesis_hash,
            block_hashes: self.block_hashes@,
            accounts: self.accounts@,
            timestamp_now: self.timestamp_now,
            randomness: self.randomness,
            babe: self.babe@,
            grandpa: self.grandpa@,
        }
    }
}

impl StateModel {
    /// A usable snapshot: at least the genesis block exists and the hash
    /// chain starts at the genesis hash.
    pub open spec fn wf(self) -> bool {
        &&& self.block_hashes.len() >= 1
        &&& self.block_hashes[0] == self.genesis_hash
    }
}

impl ChainState {
    /// Builds the chain's genesis snapshot: one committed block (the genesis
    /// itself), the given initial accounts and the initial consensus
    /// parameters. The snapshot it builds is well formed.
    pub fn genesis(
        genesis_hash: Hash64,
        accounts: Vec<(AccountId, AccountInfo)>,
        babe: BabeState,
        grandpa: GrandpaState,
    ) -> (r: ChainState)
        ensures
            r@.wf(),
            r@.genesis_hash == genesis_hash,
            r@.block_hashes == seq![genesis_hash],
            r@.accounts == accounts@,
            r@.timestamp_now == 0,
            r@.randomness == 0,
            r@.babe == babe@,
            r@.grandpa == grandpa@,
    {
        let state = ChainState {
            genesis_hash,
            block_hashes: vec![genesis_hash],
            accounts,
            timestamp_now: 0,
            randomness: 0,
            babe,
            grandpa,
        };
        proof {
            assert(state@.block_hashes =~= seq![genesis_hash]);
        }
        state
    }

    /// Reads an account; ids never written read as the fresh account.
    pub fn get_account(&self, who: AccountId) -> (r: AccountInfo)
        ensures
            r == account_of(self.accounts@, who),
    {
        let n = self.accounts.len();
        let mut i: usize = 0;
        proof {
            assert(self.accounts@.skip(0) =~= self.accounts@);
        }
        while i < n
            invariant
                i <= n,
                n == self.accounts.len(),
                account_of(self.accounts@.skip(i as int), who) == account_of(self.accounts@, who),
            decreases n - i,
        {
            let (id, info) = self.accounts[i];
            if id == who {
                proof {
                    assert(self.accounts@.skip(i as int)[0] == self.accounts@[i as int]);
                }
                return info;
            }
            proof {
                assert(self.accounts@.skip(i as int).drop_first() =~= self.accounts@.skip(i as int + 1));
                assert(self.accounts@.skip(i as int)[0] == self.accounts@[i as int]);
            }
            i += 1;
        }
        proof {
            assert(self.accounts@.skip(n as int) =~= Seq::<(AccountId, AccountInfo)>::empty());
        }
        AccountInfo { nonce: 0, balance: 0 }
    }

    /// Writes an account: the new binding shadows the old one, every other
    /// account reads unchanged.
    pub fn set_account(&mut self, who: AccountId, info: AccountInfo)
        ensures
            final(self)@.accounts == old(self)@.accounts.insert(0, (who, info)),
            account_of(final(self)@.accounts, who) == info,
            forall|other: AccountId| other != who
                ==> account_of(final(self)@.accounts, other) == account_of(old(self)@.accounts, other),
            final(self)@ == (StateModel { accounts: final(self)@.accounts, ..old(self)@ }),
    {
        self.accounts.insert(0, (who, info));
        proof {
            assert(self@.accounts.drop_first() =~= old(self)@.accounts);
            assert(self@ =~= (StateModel { accounts: self@.accounts, ..old(self)@ }));
        }
    }
}

/// The digest of the account store: a left fold of the mixing step over the
/// bindings in store order.
pub open spec fn spec_accounts_root(s: Seq<(AccountId, AccountInfo)>) -> u64
    decreases s.len(),
{
    if s.len() == 0 {
        0u64
    } else {
        mix64(mix64(mix64(spec_accounts_root(s.drop_last()), s.last().0), s.last().1.nonce as u64), s.last().1.balance)
    }
}

/// The digest of the block-hash chain: a left fold of the mixing step.
pub open spec fn spec_hashes_root(s: Seq<Hash64>) -> u64
    decreases s.len(),
{
    if s.len() == 0 {
        0u64
    } else {
        mix64(spec_hashes_root(s.drop_last()), s.last())
    }
}

/// The state-root digest: a deterministic digest of every committed field, so
/// that two equal snapshots always present the same root.
pub open spec fn spec_state_root(s: StateModel) -> Hash64 {
    mix64(
        mix64(
            mix64(
                mix64(
                    mix64(
                        mix64(
                            mix64(
                                mix64(spec_accounts_root(s.accounts), spec_hashes_root(s.block_hashes)),
                                s.genesis_hash,
                            ),
                            s.timestamp_now,
                        ),
                        s.randomness,
                    ),
                    spec_authorities_root(s.babe.authorities),
                ),
                mix64(s.babe.genesis_slot, s.babe.epoch_index),
            ),
            spec_authorities_root(s.grandpa.authorities),
        ),
        s.grandpa.set_id,
    )
}

/// The digest of an authority list: a left fold of the mixing step over the
/// (key, weight) pairs in list order.
pub open spec fn spec_authorities_root(s: Seq<(u64, u64)>) -> u64
    decreases s.len(),
{
    if s.len() == 0 {
        0u64
    } else {
        mix64(mix64(spec_authorities_root(s.drop_last()), s.last().0), s.last().1)
    }
}

/// Computes the digest of an authority list.
pub fn authorities_root(s: &Vec<(u64, u64)>) -> (r: u64)
    ensures
        r == spec_authorities_root(s@),
{
    let mut acc: u64 = 0;
    let mut i: usize = 0;
    while i < s.len()
        invariant
            i <= s.len(),
            acc == spec_authorities_root(s@.take(i as int)),
        decreases s.len() - i,
    {
        let (key, weight) = s[i];
        acc = mix64_step(mix64_step(acc, key), weight);
        proof {
            assert(s@.take(i as int + 1).drop_last() =~= s@.take(i as int));
            assert(s@.take(i as int + 1).last() == s@[i as int]);
        }
        i += 1;
    }
    proof {
        assert(s@.take(s@.len() as int) =~= s@);
    }
    acc
}

/// Computes the state-root digest of a snapshot.
pub fn state_root(s: &ChainState) -> (r: Hash64)
    ensures
        r == spec_state_root(s@),
{
    let mut acc: u64 = 0;
    let mut i: usize = 0;
    while i < s.accounts.len()
        invariant
            i <= s.accounts.len(),
            acc == spec_accounts_root(s.accounts@.take(i as int)),
        decreases s.accounts.len() - i,
    {
        let (id, info) = s.accounts[i];
        acc = mix64_step(mix64_step(mix64_step(acc, id), info.nonce as u64), info.balance);
        proof {
            assert(s.accounts@.take(i as int + 1).drop_last() =~= s.accounts@.take(i as int));
            assert(s.accounts@.take(i as int + 1).last() == s.accounts@[i as int]);
        }
        i += 1;
    }
    proof {
        assert(s.accounts@.take(s.accounts@.len() as int) =~= s.accounts@);
    }
    let accounts_acc = acc;

    let mut hacc: u64 = 0;
    let mut j: usize = 0;
    while j < s.block_hashes.len()
        invariant
            j <= s.block_hashes.len(),
            hacc == spec_hashes_root(s.block_hashes@.take(j as int)),
        decreases s.block_hashes.len() - j,
    {
        hacc = mix64_step(hacc, s.block_hashes[j]);
        proof {
            assert(s.block_hashes@.take(j as int + 1).drop_last() =~= s.block_hashes@.take(j as int));
            assert(s.block_hashes@.take(j as int + 1).last() == s.block_hashes@[j as int]);
        }
        j += 1;
    }
    proof {
        assert(s.block_hashes@.take(s.block_hashes@.len() as int) =~= s.block_hashes@);
    }

    let babe_auth = authorities_root(&s.babe.authorities);
    let grandpa_auth = authorities_root(&s.grandpa.authorities);

    mix64_step(
        mix64_step(
            mix64_step(
                mix64_step(
                    mix64_step(
                        mix64_step(
                            mix64_step(
                                mix64_step(accounts_acc, hacc),
                                s.genesis_hash,
                            ),
                            s.timestamp_now,
                        ),
                        s.randomness,
                    ),
                    babe_auth,
                ),
                mix64_step(s.babe.genesis_slot, s.babe.epoch_index),
            ),
            grandpa_auth,
        ),
        s.grandpa.set_id,
    )
}

} // verus!
