use vstd::prelude::*;
use crate::admission::Payload;

verus! {

/// The number of entries that the record of processed numbers keeps: a design
/// choice, large enough to see recent work and small enough to stay cheap.
pub const WORK_DONE_CAPACITY: usize = 10;

/// What `s` becomes when `n` is appended to it with room for `capacity`
/// entries: `n` goes to the tail and, when the record is over capacity, the
/// oldest entry leaves.
pub open spec fn appended(s: Seq<u64>, n: u64, capacity: nat) -> Seq<u64> {
    let t = s.push(n);
    if t.len() > capacity {
        t.drop_first()
    } else {
        t
    }
}

/// A bounded, ordered record of processed numbers, oldest first.
#[derive(Debug)]
pub struct WorkDone {
    items: Vec<u64>,
    capacity: usize,
}

impl View for WorkDone {
    type V = Seq<u64>;

    closed spec fn view(&self) -> Seq<u64> {
        self.items@
    }
}

impl WorkDone {
    pub closed spec fn wf(&self) -> bool {
        self.items@.len() <= self.capacity
    }

    pub closed spec fn capacity_spec(&self) -> nat {
        self.capacity as nat
    }

    /// An empty record with room for `capacity` entries.
    pub fn new(capacity: usize) -> (r: WorkDone)
        ensures
            r.wf(),
            r@.len() == 0,
            r.capacity_spec() == capacity,
    {
        WorkDone { items: Vec::new(), capacity }
    }

    pub fn capacity(&self) -> (r: usize)
        ensures
            r == self.capacity_spec(),
    {
        self.capacity
    }

    pub fn len(&self) -> (r: usize)
        ensures
            r == self@.len(),
    {
        self.items.len()
    }

    /// The entries, oldest first.
    pub fn to_vec(&self) -> (r: Vec<u64>)
        ensures
            r@ == self@,
    {
        self.items.clone()
    }

    /// Appends `n` at the tail, dropping the oldest entry where the record is
    /// full. A record with no room stays empty.
    pub fn append_or_replace(&mut self, n: u64)
        requires
            old(self).wf(),
        ensures
            final(self).wf(),
            final(self).capacity_spec() == old(self).capacity_spec(),
            final(self)@ == appended(old(self)@, n, old(self).capacity_spec()),
    {
        let ghost before = self.items@;
        if self.capacity == 0 {
            assert(before.push(n).drop_first() =~= before);
            return;
        }
        if self.items.len() >= self.capacity {
            self.items.remove(0);
        }
        self.items.push(n);
        proof {
            if before.len() >= self.capacity {
                assert(self.items@ =~= before.push(n).drop_first());
            }
        }
    }
}

/// Who dispatched a call.
#[derive(Clone, Copy, Debug)]
pub enum Origin {
    /// The chain itself.
    Root,
    /// An account, by its public key.
    Signed([u8; 32]),
    /// Nobody: an unsigned transaction.
    Unsigned,
}

/// Why a dispatch failed.
#[derive(Clone, Copy, Debug, PartialEq, Eq, Structural)]
pub enum DispatchError {
    /// The call must come from an unsigned transaction.
    BadOrigin,
}

/// What the ledger reports when a number is recorded.
#[derive(Clone, Copy, Debug)]
pub enum Event {
    /// A number was recorded, with the account that sent it where there is one.
    NewNumber(Option<[u8; 32]>, u64),
}

/// The ledger state of the pipeline: the record of processed numbers and the
/// events emitted so far.
#[derive(Debug)]
pub struct Pallet {
    pub work_done: WorkDone,
    pub events: Vec<Event>,
}

/// The ledger state after `number` is recorded by an unsigned call.
pub open spec fn recorded(before: Pallet, after: Pallet, number: u64) -> bool {
    &&& after.work_done.wf()
    &&& after.work_done.capacity_spec() == before.work_done.capacity_spec()
    &&& after.work_done@ == appended(before.work_done@, number, before.work_done.capacity_spec())
    &&& after.events@ == before.events@.push(Event::NewNumber(None, number))
}

impl Pallet {
    pub open spec fn wf(&self) -> bool {
        self.work_done.wf()
    }

    /// A fresh ledger state whose record keeps `capacity` entries.
    pub fn new(capacity: usize) -> (r: Pallet)
        ensures
            r.wf(),
            r.work_done@.len() == 0,
            r.work_done.capacity_spec() == capacity,
            r.events@.len() == 0,
    {
        Pallet { work_done: WorkDone::new(capacity), events: Vec::new() }
    }

    /// The processed numbers, oldest first.
    pub fn number(&self) -> (r: Vec<u64>)
        ensures
            r@ == self.work_done@,
    {
        self.work_done.to_vec()
    }

    fn record(&mut self, number: u64)
        requires
            old(self).wf(),
        ensures
            recorded(*old(self), *final(self), number),
    {
        self.work_done.append_or_replace(number);
        self.events.push(Event::NewNumber(None, number));
    }

    /// Records a number sent by an unsigned transaction, and emits
    /// `NewNumber(None, number)`. Any other origin is refused and changes
    /// nothing.
    pub fn submit_number_unsigned(&mut self, origin: Origin, number: u64) -> (r: Result<
        (),
        DispatchError,
    >)
        requires
            old(self).wf(),
        ensures
            final(self).wf(),
            origin is Unsigned ==> r is Ok && recorded(*old(self), *final(self), number),
            !(origin is Unsigned) ==> r == Err::<(), DispatchError>(DispatchError::BadOrigin)
                && *final(self) == *old(self),
    {
        match origin {
            Origin::Unsigned => {
                self.record(number);
                Ok(())
            },
            _ => Err(DispatchError::BadOrigin),
        }
    }

    /// Records the number of a signed payload sent by an unsigned transaction.
    /// The signature was checked at admission and is not checked again here.
    pub fn submit_number_unsigned_with_signed_payload(
        &mut self,
        origin: Origin,
        payload: Payload,
        signature: [u8; 64],
    ) -> (r: Result<(), DispatchError>)
        requires
            old(self).wf(),
        ensures
            final(self).wf(),
            origin is Unsigned ==> r is Ok && recorded(*old(self), *final(self), payload.number),
            !(origin is Unsigned) ==> r == Err::<(), DispatchError>(DispatchError::BadOrigin)
                && *final(self) == *old(self),
    {
        match origin {
            Origin::Unsigned => {
                self.record(payload.number);
                Ok(())
            },
            _ => Err(DispatchError::BadOrigin),
        }
    }
}

/// The record never holds more than its capacity, and an append keeps the
/// newest entries in order, with the new number last where there is room.
pub proof fn lemma_append_keeps_newest(s: Seq<u64>, n: u64, capacity: nat)
    requires
        s.len() <= capacity,
    ensures
        appended(s, n, capacity).len() <= capacity,
        0 < capacity ==> appended(s, n, capacity).last() == n,
        s.len() < capacity ==> appended(s, n, capacity) == s.push(n),
        0 < s.len() == capacity ==> appended(s, n, capacity) == s.subrange(1, s.len() as int).push(
            n,
        ),
        capacity == 0 ==> appended(s, n, capacity).len() == 0,
{
    if 0 < s.len() && s.len() == capacity {
        assert(s.push(n).drop_first() =~= s.subrange(1, s.len() as int).push(n));
    }
}

} // verus!
