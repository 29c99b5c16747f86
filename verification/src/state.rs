//! Models of the persistent program state the handlers read and write:
//! per-tree nullifier sets, the Merkle-storage summary, the governor's
//! published fee parameters and the verifying-key account.

use vstd::prelude::*;
use crate::U256;
use crate::error::ElusivError;
use crate::u256_eq;

verus! {

/// Commitments a single Merkle tree can hold.
pub const MT_COMMITMENT_COUNT: usize = 1048576;

/// Nullifier hashes a single tree's set can record: every join-split may
/// spend up to two inputs per output commitment.
pub const NULLIFIERS_COUNT: usize = 2097152;

/// The per-tree append-only set of spent-commitment fingerprints.
///
/// Entries are nullifier hashes in reduced form; once recorded they stay
/// for the life of the tree. For a closed tree the account also carries
/// the tree's frozen root.
pub struct NullifierAccount {
    /// Frozen root of the tree (meaningful once the tree is closed), in
    /// reduced form.
    pub root: U256,
    /// The recorded nullifier hashes, in reduced form.
    pub nullifier_hashes: Vec<U256>,
    /// Most entries the set can record.
    pub capacity: usize,
}

impl NullifierAccount {
    pub open spec fn wf(self) -> bool {
        self.nullifier_hashes@.len() <= self.capacity
    }

    /// The recorded hashes, in insertion order.
    pub open spec fn contents(self) -> Seq<U256> {
        self.nullifier_hashes@
    }

    /// A fresh set for a tree whose root is `root`.
    pub fn new(root: U256) -> (r: Self)
        ensures
            r.wf(),
            r.contents() =~= Seq::<U256>::empty(),
            r.capacity == NULLIFIERS_COUNT,
            r.root == root,
    {
        NullifierAccount { root, nullifier_hashes: Vec::new(), capacity: NULLIFIERS_COUNT }
    }

    pub fn get_root(&self) -> (r: U256)
        ensures
            r == self.root,
    {
        self.root
    }

    /// Whether `nullifier_hash` (reduced form) is recorded.
    fn contains(&self, nullifier_hash: &U256) -> (r: bool)
        ensures
            r <==> self.contents().contains(*nullifier_hash),
    {
        let n: usize = self.nullifier_hashes.len();
        let mut i: usize = 0;
        while i < n
            invariant
                n == self.nullifier_hashes@.len(),
                i <= n,
                forall|j: int| 0 <= j < i ==> self.nullifier_hashes@[j] != *nullifier_hash,
            decreases n - i,
        {
            if u256_eq(&self.nullifier_hashes[i], nullifier_hash) {
                return true;
            }
            i = i + 1;
        }
        false
    }

    /// True exactly when `nullifier_hash` (reduced form) is not yet
    /// recorded, so an insert would go through.
    pub fn can_insert_nullifier_hash(&self, nullifier_hash: U256) -> (r: Result<
        bool,
        ElusivError,
    >)
        ensures
            r == Result::<bool, ElusivError>::Ok(!self.contents().contains(nullifier_hash)),
    {
        Ok(!self.contains(&nullifier_hash))
    }

    /// Records `nullifier_hash` (reduced form); fails with
    /// `CouldNotInsertNullifier` (and changes nothing) exactly when the
    /// hash is already recorded or the set is out of room.
    pub fn try_insert_nullifier_hash(&mut self, nullifier_hash: U256) -> (r: Result<
        (),
        ElusivError,
    >)
        requires
            old(self).wf(),
        ensures
            final(self).wf(),
            final(self).root == old(self).root,
            final(self).capacity == old(self).capacity,
            old(self).contents().contains(nullifier_hash) || old(self).contents().len()
                == old(self).capacity ==> {
                &&& r == Result::<(), ElusivError>::Err(ElusivError::CouldNotInsertNullifier)
                &&& *final(self) == *old(self)
            },
            !old(self).contents().contains(nullifier_hash) && old(self).contents().len()
                < old(self).capacity ==> {
                &&& r == Result::<(), ElusivError>::Ok(())
                &&& final(self).contents() =~= old(self).contents().push(nullifier_hash)
            },
    {
        if self.contains(&nullifier_hash) {
            return Err(ElusivError::CouldNotInsertNullifier);
        }
        if self.nullifier_hashes.len() >= self.capacity {
            return Err(ElusivError::CouldNotInsertNullifier);
        }
        self.nullifier_hashes.push(nullifier_hash);
        Ok(())
    }
}

/// A hash recorded by an insert stays recorded, so by
/// [`NullifierAccount::try_insert_nullifier_hash`]'s contract every later
/// insert of the same hash fails, and
/// [`NullifierAccount::can_insert_nullifier_hash`] answers false.
pub proof fn lemma_nullifier_insert_idempotent(s: Seq<U256>, h: U256)
    ensures
        s.push(h).contains(h),
        forall|t: Seq<U256>| s.push(h).is_prefix_of(t) ==> t.contains(h),
{
    assert(s.push(h)[s.len() as int] == h);
    assert forall|t: Seq<U256>| s.push(h).is_prefix_of(t) implies t.contains(h) by {
        assert(t[s.len() as int] == h);
    }
}

/// Summary of the Merkle-storage account: which tree is active, how many
/// commitments it already holds, and which roots of it are valid.
pub struct StorageAccount {
    /// Index of the currently active tree.
    pub trees_count: u32,
    /// Commitments already inserted into the active tree.
    pub next_commitment_ptr: u32,
    /// The valid roots of the active tree, newest last, in reduced form.
    pub active_mt_root_history: Vec<U256>,
}

/// The root of a tree holding no commitments, in raw form (its value is
/// below the field order, so raw and reduced form coincide).
pub fn empty_root_raw() -> (r: crate::fields::RawU256)
    ensures
        r.view_raw() == empty_tree_root(),
{
    crate::fields::RawU256::new([7, 7, 7, 7])
}

/// The root of a tree holding no commitments, in reduced form.
pub open spec fn empty_tree_root() -> U256 {
    [7u64, 7u64, 7u64, 7u64]
}

impl StorageAccount {
    pub open spec fn wf(self) -> bool {
        self.next_commitment_ptr <= MT_COMMITMENT_COUNT as u32
    }

    /// A fresh storage account: the first tree is active, holds nothing,
    /// and its only valid root is the empty-tree root.
    pub fn new() -> (r: Self)
        ensures
            r.wf(),
            r.trees_count == 0,
            r.next_commitment_ptr == 0,
            r.active_mt_root_history@ =~= seq![empty_tree_root()],
    {
        let mut history: Vec<U256> = Vec::new();
        history.push([7, 7, 7, 7]);
        StorageAccount { trees_count: 0, next_commitment_ptr: 0, active_mt_root_history: history }
    }

    pub fn get_trees_count(&self) -> (r: u32)
        ensures
            r == self.trees_count,
    {
        self.trees_count
    }

    pub fn get_next_commitment_ptr(&self) -> (r: u32)
        ensures
            r == self.next_commitment_ptr,
    {
        self.next_commitment_ptr
    }

    /// Whether `root` (reduced form) is a valid root of the active tree.
    pub fn is_root_valid(&self, root: U256) -> (r: bool)
        ensures
            r <==> self.active_mt_root_history@.contains(root),
    {
        let n: usize = self.active_mt_root_history.len();
        let mut i: usize = 0;
        while i < n
            invariant
                n == self.active_mt_root_history@.len(),
                i <= n,
                forall|j: int| 0 <= j < i ==> self.active_mt_root_history@[j] != root,
            decreases n - i,
        {
            if u256_eq(&self.active_mt_root_history[i], &root) {
                return true;
            }
            i = i + 1;
        }
        false
    }
}

/// The governor's published parameters that gate fee payment.
pub struct GovernorAccount {
    /// Fee-schedule version a statement must match.
    pub fee_version: u32,
    /// The batching rate commitments are currently hashed at.
    pub commitment_batching_rate: u32,
}

impl GovernorAccount {
    pub fn new() -> (r: Self)
        ensures
            r.fee_version == 0,
            r.commitment_batching_rate == 0,
    {
        GovernorAccount { fee_version: 0, commitment_batching_rate: 0 }
    }

    pub fn get_fee_version(&self) -> (r: u32)
        ensures
            r == self.fee_version,
    {
        self.fee_version
    }

    pub fn get_commitment_batching_rate(&self) -> (r: u32)
        ensures
            r == self.commitment_batching_rate,
    {
        self.commitment_batching_rate
    }
}

/// The verifying-key account a verification runs against.
pub struct VKeyAccount {
    /// A frozen key is immutable and audited; only frozen keys may be
    /// used.
    pub is_frozen: bool,
    /// Number of public inputs of the key's circuit.
    pub public_inputs_count: u32,
}

impl VKeyAccount {
    pub fn get_is_frozen(&self) -> (r: bool)
        ensures
            r == self.is_frozen,
    {
        self.is_frozen
    }

    pub fn get_public_inputs_count(&self) -> (r: u32)
        ensures
            r == self.public_inputs_count,
    {
        self.public_inputs_count
    }
}

} // verus!
