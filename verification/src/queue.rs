//! Bounded ring queues.
//!
//! A [`RingQueue`] is a fixed-capacity circular FIFO buffer over two
//! pointers: `head` points at the first element, `tail` at the slot the
//! next element goes into. One slot always stays empty, so a queue over
//! `size` slots holds at most `size - 1` elements; `head == tail` means
//! empty. The commitment-hashing pipeline consumes requests from the
//! [`CommitmentQueue`]; base-commitment requests wait in the
//! [`BaseCommitmentQueue`].

use vstd::prelude::*;
use vstd::std_specs::cmp::PartialEqSpec;
use vstd::arithmetic::div_mod::{lemma_small_mod, lemma_mod_sub_multiples_vanish, lemma_mod_bound};
use crate::U256;
use crate::error::ElusivError;
use crate::fields::RawU256;

verus! {

pub struct RingQueue<T> {
    pub head: u64,
    pub tail: u64,
    pub data: Vec<T>,
}

impl<T: Copy> RingQueue<T> {
    /// Number of slots (one more than the capacity).
    pub open spec fn size(self) -> int {
        self.data@.len() as int
    }

    /// Most elements the queue can hold at once.
    pub open spec fn capacity(self) -> int {
        self.size() - 1
    }

    pub open spec fn wf(self) -> bool {
        &&& self.size() >= 2
        &&& self.size() <= usize::MAX
        &&& (self.head as int) < self.size()
        &&& (self.tail as int) < self.size()
    }

    /// The queued elements, first (oldest) first.
    pub open spec fn contents(self) -> Seq<T> {
        if self.tail >= self.head {
            self.data@.subrange(self.head as int, self.tail as int)
        } else {
            self.data@.subrange(self.head as int, self.size())
                + self.data@.subrange(0, self.tail as int)
        }
    }

    /// The element `j` positions behind the head sits at slot
    /// `(head + j) mod size`.
    proof fn lemma_contents_index(self, j: int)
        requires
            self.wf(),
            0 <= j < self.contents().len(),
        ensures
            self.contents()[j] == self.data@[(self.head + j) % self.size()],
    {
        let size = self.size();
        let head = self.head as int;
        if self.tail >= self.head {
            lemma_small_mod((head + j) as nat, size as nat);
        } else {
            if head + j < size {
                lemma_small_mod((head + j) as nat, size as nat);
            } else {
                lemma_mod_sub_multiples_vanish(head + j, size);
                lemma_small_mod((head + j - size) as nat, size as nat);
            }
        }
    }

    /// An empty queue over `size` slots; slots start out holding `fill`.
    pub fn new(size: usize, fill: T) -> (q: Self)
        requires
            size >= 2,
        ensures
            q.wf(),
            q.size() == size,
            q.contents() =~= Seq::<T>::empty(),
    {
        let mut data: Vec<T> = Vec::new();
        let mut i: usize = 0;
        while i < size
            invariant
                data@.len() == i,
                i <= size,
            decreases size - i,
        {
            data.push(fill);
            i = i + 1;
        }
        RingQueue { head: 0, tail: 0, data }
    }

    /// Appends `value`; fails with `QueueIsFull` (and changes nothing)
    /// exactly when the queue already holds `capacity` elements.
    pub fn enqueue(&mut self, value: T) -> (r: Result<(), ElusivError>)
        requires
            old(self).wf(),
        ensures
            final(self).wf(),
            final(self).size() == old(self).size(),
            old(self).contents().len() == old(self).capacity() ==> {
                &&& r == Result::<(), ElusivError>::Err(ElusivError::QueueIsFull)
                &&& *final(self) == *old(self)
            },
            old(self).contents().len() < old(self).capacity() ==> {
                &&& r == Result::<(), ElusivError>::Ok(())
                &&& final(self).contents() =~= old(self).contents().push(value)
            },
    {
        proof {
            self.lemma_len_bound();
        }
        let size: u64 = self.data.len() as u64;
        let head: u64 = self.head;
        let tail: u64 = self.tail;
        let next_tail: u64 = (tail + 1) % size;
        proof {
            if tail + 1 < size {
                lemma_small_mod((tail + 1) as nat, size as nat);
            } else {
                lemma_mod_sub_multiples_vanish(tail as int + 1, size as int);
                lemma_small_mod(0nat, size as nat);
            }
        }
        if next_tail == head {
            proof {
                assert(old(self).contents().len() == old(self).capacity());
            }
            return Err(ElusivError::QueueIsFull);
        }
        self.data.set(tail as usize, value);
        self.tail = next_tail;
        proof {
            let oldq = *old(self);
            let newq = *self;
            assert forall|j: int| 0 <= j < oldq.contents().len()
                implies newq.contents()[j] == oldq.contents()[j] by {
                oldq.lemma_contents_index(j);
                newq.lemma_contents_index(j);
            }
            newq.lemma_contents_index(oldq.contents().len() as int);
            assert(newq.contents() =~= oldq.contents().push(value));
        }
        Ok(())
    }

    /// The number of queued elements is below the slot count.
    pub proof fn lemma_len_bound(self)
        requires
            self.wf(),
        ensures
            self.contents().len() <= self.capacity(),
            self.contents().len() == if self.tail >= self.head {
                self.tail - self.head
            } else {
                self.size() - self.head + self.tail
            },
    {
    }

    /// Removes and returns the first element; fails with `QueueIsEmpty`
    /// (and changes nothing) exactly when the queue is empty.
    pub fn dequeue_first(&mut self) -> (r: Result<T, ElusivError>)
        requires
            old(self).wf(),
        ensures
            final(self).wf(),
            final(self).size() == old(self).size(),
            old(self).contents().len() == 0 ==> {
                &&& r == Result::<T, ElusivError>::Err(ElusivError::QueueIsEmpty)
                &&& *final(self) == *old(self)
            },
            old(self).contents().len() > 0 ==> {
                &&& r == Result::<T, ElusivError>::Ok(old(self).contents()[0])
                &&& final(self).contents() =~= old(self).contents().subrange(
                    1,
                    old(self).contents().len() as int,
                )
            },
    {
        let size: u64 = self.data.len() as u64;
        let head: u64 = self.head;
        let tail: u64 = self.tail;
        if head == tail {
            return Err(ElusivError::QueueIsEmpty);
        }
        let value: T = self.data[head as usize];
        self.head = (head + 1) % size;
        proof {
            if head + 1 < size {
                lemma_small_mod((head + 1) as nat, size as nat);
            } else {
                lemma_mod_sub_multiples_vanish(head as int + 1, size as int);
                lemma_small_mod(0nat, size as nat);
            }
            let oldq = *old(self);
            let newq = *self;
            oldq.lemma_contents_index(0);
            assert forall|j: int| 0 <= j < newq.contents().len()
                implies newq.contents()[j] == oldq.contents()[j + 1] by {
                oldq.lemma_contents_index(j + 1);
                newq.lemma_contents_index(j);
            }
            assert(newq.contents() =~= oldq.contents().subrange(
                1,
                oldq.contents().len() as int,
            ));
        }
        Ok(value)
    }

    /// Reads the slot `offset` positions behind the head without removing
    /// anything; fails with `QueueIsEmpty` exactly when the queue is
    /// empty. For `offset` below the element count this is the element
    /// `offset` positions behind the first; a larger `offset` wraps over
    /// the stale slots.
    pub fn view_at(&self, offset: usize) -> (r: Result<T, ElusivError>)
        requires
            self.wf(),
            self.head + offset <= usize::MAX,
        ensures
            self.contents().len() == 0 <==> r == Result::<T, ElusivError>::Err(
                ElusivError::QueueIsEmpty,
            ),
            self.contents().len() > 0 ==> r == Result::<T, ElusivError>::Ok(
                self.data@[(self.head + offset) % self.size()],
            ),
            offset < self.contents().len() ==> r == Result::<T, ElusivError>::Ok(
                self.contents()[offset as int],
            ),
    {
        let head: u64 = self.head;
        let tail: u64 = self.tail;
        if head == tail {
            return Err(ElusivError::QueueIsEmpty);
        }
        let size: usize = self.data.len();
        let slot: usize = (head as usize + offset) % size;
        proof {
            if (offset as int) < self.contents().len() {
                self.lemma_contents_index(offset as int);
            }
        }
        Ok(self.data[slot])
    }

    /// Reads the first element without removing it.
    pub fn view_first(&self) -> (r: Result<T, ElusivError>)
        requires
            self.wf(),
        ensures
            self.contents().len() == 0 <==> r == Result::<T, ElusivError>::Err(
                ElusivError::QueueIsEmpty,
            ),
            self.contents().len() > 0 ==> r == Result::<T, ElusivError>::Ok(self.contents()[0]),
    {
        self.view_at(0)
    }

    /// How many elements are queued.
    pub fn len(&self) -> (r: u64)
        requires
            self.wf(),
        ensures
            r as int == self.contents().len(),
    {
        proof {
            self.lemma_len_bound();
        }
        let size: u64 = self.data.len() as u64;
        let head: u64 = self.head;
        let tail: u64 = self.tail;
        if tail >= head {
            tail - head
        } else {
            size - head + tail
        }
    }

    /// Whether an element equal to `value` is queued.
    pub fn contains(&self, value: &T) -> (r: bool) where T: PartialEq
        requires
            self.wf(),
            T::obeys_eq_spec(),
        ensures
            r <==> exists|j: int|
                0 <= j < self.contents().len() && self.contents()[j].eq_spec(value),
    {
        proof {
            self.lemma_len_bound();
        }
        let size: u64 = self.data.len() as u64;
        let tail: u64 = self.tail;
        let mut ptr: u64 = self.head;
        let ghost mut k: int = 0;
        proof {
            lemma_small_mod(self.head as nat, size as nat);
        }
        while ptr != tail
            invariant
                self.wf(),
                T::obeys_eq_spec(),
                size == self.size(),
                tail == self.tail,
                0 <= k <= self.contents().len(),
                ptr as int == (self.head + k) % self.size(),
                (ptr as int) < self.size(),
                forall|j: int| 0 <= j < k ==> !self.contents()[j].eq_spec(value),
            decreases self.contents().len() - k,
        {
            proof {
                if k == self.contents().len() {
                    self.lemma_tail_slot();
                }
                self.lemma_contents_index(k);
            }
            let elem: T = self.data[ptr as usize];
            proof {
                assert(elem == self.contents()[k]);
            }
            let is_match: bool = elem == *value;
            proof {
                assert(is_match == elem.eq_spec(value));
            }
            if is_match {
                return true;
            }
            ptr = (ptr + 1) % size;
            proof {
                k = k + 1;
                self.lemma_ptr_step(k);
                lemma_mod_bound(self.head + k, self.size());
            }
        }
        proof {
            if k < self.contents().len() {
                self.lemma_slot_vs_tail(k);
            }
        }
        false
    }

    /// The slot one past the last queued element is the tail slot.
    proof fn lemma_tail_slot(self)
        requires
            self.wf(),
        ensures
            (self.head + self.contents().len()) % self.size() == self.tail as int,
    {
        let size = self.size();
        let head = self.head as int;
        let len = self.contents().len() as int;
        self.lemma_len_bound();
        if head + len < size {
            lemma_small_mod((head + len) as nat, size as nat);
        } else {
            lemma_mod_sub_multiples_vanish(head + len, size);
            lemma_small_mod((head + len - size) as nat, size as nat);
        }
    }

    /// No queued element sits in the tail slot.
    proof fn lemma_slot_vs_tail(self, k: int)
        requires
            self.wf(),
            0 <= k < self.contents().len(),
        ensures
            (self.head + k) % self.size() != self.tail as int,
    {
        let size = self.size();
        let head = self.head as int;
        self.lemma_len_bound();
        if head + k < size {
            lemma_small_mod((head + k) as nat, size as nat);
        } else {
            lemma_mod_sub_multiples_vanish(head + k, size);
            lemma_small_mod((head + k - size) as nat, size as nat);
        }
    }

    /// Walking one slot past position `k - 1` lands on position `k`:
    /// `((head + (k-1)) % size + 1) % size == (head + k) % size`.
    proof fn lemma_ptr_step(self, k: int)
        requires
            self.wf(),
            1 <= k <= self.contents().len(),
        ensures
            ((self.head + (k - 1)) % self.size() + 1) % self.size() == (self.head + k)
                % self.size(),
    {
        let size = self.size();
        let v = self.head + (k - 1);
        lemma_mod_sub_multiples_vanish(v % size + 1, size);
        assert((v % size + 1) % size == (v + 1) % size) by {
            vstd::arithmetic::div_mod::lemma_mod_twice(v, size);
            vstd::arithmetic::div_mod::lemma_add_mod_noop(v % size, 1, size);
            vstd::arithmetic::div_mod::lemma_add_mod_noop(v, 1, size);
            lemma_small_mod(1nat, size as nat);
        }
    }
}

/// Dequeue order equals enqueue order: enqueuing never changes the
/// element about to leave the queue, and the element a fresh enqueue adds
/// leaves only after everything queued before it.
pub proof fn lemma_queue_fifo<T>(s: Seq<T>, v: T)
    ensures
        s.len() > 0 ==> s.push(v)[0] == s[0],
        s.len() > 0 ==> s.push(v).subrange(1, s.len() as int + 1) =~= s.subrange(
            1,
            s.len() as int,
        ).push(v),
        s.len() == 0 ==> s.push(v)[0] == v,
{
}

/// A request to hash a fresh output commitment into the active tree.
#[derive(Clone, Copy, Debug)]
pub struct CommitmentHashRequest {
    /// The commitment, in reduced form.
    pub commitment: U256,
    pub fee_version: u32,
    pub min_batching_rate: u32,
}

impl PartialEq for CommitmentHashRequest {
    fn eq(&self, other: &Self) -> (r: bool) {
        let c: bool = crate::u256_eq(&self.commitment, &other.commitment);
        c && self.fee_version == other.fee_version
            && self.min_batching_rate == other.min_batching_rate
    }
}

impl vstd::std_specs::cmp::PartialEqSpecImpl for CommitmentHashRequest {
    open spec fn obeys_eq_spec() -> bool {
        true
    }

    open spec fn eq_spec(&self, other: &Self) -> bool {
        *self == *other
    }
}

/// A request to fold a base commitment into a full commitment.
#[derive(Clone, Copy, Debug)]
pub struct BaseCommitmentHashRequest {
    /// The base commitment, in raw form.
    pub base_commitment: RawU256,
    pub amount: u64,
    pub token_id: u16,
    pub fee_version: u32,
    pub min_batching_rate: u32,
}

/// Slot count of the commitment queue (capacity is one less).
pub const COMMITMENT_QUEUE_SIZE: usize = 240;

/// Slot count of the base-commitment queue (capacity is one less).
pub const BASE_COMMITMENT_QUEUE_SIZE: usize = 128;

/// Queue handing completed verifications' output commitments to the
/// asynchronous hashing pipeline.
pub type CommitmentQueue = RingQueue<CommitmentHashRequest>;

/// Queue of base-commitment hash requests.
pub type BaseCommitmentQueue = RingQueue<BaseCommitmentHashRequest>;

/// An empty commitment queue of the protocol's fixed size.
pub fn commitment_queue_new() -> (q: CommitmentQueue)
    ensures
        q.wf(),
        q.size() == COMMITMENT_QUEUE_SIZE,
        q.contents() =~= Seq::<CommitmentHashRequest>::empty(),
{
    RingQueue::new(
        COMMITMENT_QUEUE_SIZE,
        CommitmentHashRequest { commitment: [0, 0, 0, 0], fee_version: 0, min_batching_rate: 0 },
    )
}

/// An empty base-commitment queue of the protocol's fixed size.
pub fn base_commitment_queue_new() -> (q: BaseCommitmentQueue)
    ensures
        q.wf(),
        q.size() == BASE_COMMITMENT_QUEUE_SIZE,
        q.contents() =~= Seq::<BaseCommitmentHashRequest>::empty(),
{
    RingQueue::new(
        BASE_COMMITMENT_QUEUE_SIZE,
        BaseCommitmentHashRequest {
            base_commitment: RawU256::new([0, 0, 0, 0]),
            amount: 0,
            token_id: 0,
            fee_version: 0,
            min_batching_rate: 0,
        },
    )
}

} // verus!
