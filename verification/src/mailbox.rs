//! Single-slot, overwrite-on-write, take-on-read handoff cell for passing the
//! latest value from a background producer thread to the render loop.
//!
//! A [`Mailbox`] wraps one optional value guarded by one mutual-exclusion
//! lock, shared between its handles through a reference-counted pointer.
//! [`Mailbox::put`] stores a value, unconditionally discarding any unread
//! predecessor; [`Mailbox::if_new`] atomically takes the stored value if one
//! is present and hands ownership of it to a callback, invoked at most once.
//! Neither operation ever blocks waiting for the other side.
//!
//! What a concurrent slot holds at any moment depends on the other threads,
//! so the slot itself is opaque here. Its protocol is stated instead as a
//! model: every operation under the lock is one [`MailboxOp`] step, `put` a
//! `Put` and `if_new` a `Poll`, and the lemmas at the end of this module state
//! what any interleaving of steps can deliver.

use vstd::prelude::*;

use std::sync::Arc;
use std::sync::Mutex;

verus! {

/// The mailbox's internal lock reported failure (it was poisoned by a panic
/// while held). Fatal to the producer/consumer pairing; never retried.
#[derive(Clone, Copy, PartialEq, Eq, Structural, Debug)]
pub struct LockFailure;

#[verifier::external_type_specification]
#[verifier::external_body]
#[verifier::reject_recursive_types(T)]
pub struct ExMutex<T: ?Sized>(Mutex<T>);

/// Relies on `std::sync::Mutex::new`: creates the lock that guards the slot,
/// with the slot holding the given initial contents.
#[verifier::external_body]
fn new_locked_slot<T>(contents: Option<T>) -> Mutex<Option<T>> {
    Mutex::new(contents)
}

/// Relies on `std::sync::Arc::clone`: the returned handle is the same shared
/// value, so every clone reaches the one slot.
#[verifier::external_body]
fn clone_handle<T>(handle: &Arc<T>) -> (r: Arc<T>)
    ensures
        r == *handle,
{
    Arc::clone(handle)
}

/// Relies on `std::sync::Mutex::lock` and `std::mem::replace`: while the lock
/// is held, the slot's previous contents are exchanged for `contents` in one
/// critical section, and the previous contents are returned. A poisoned lock
/// is reported as [`LockFailure`] without touching the slot.
#[verifier::external_body]
fn exchange_contents<T>(slot: &Arc<Mutex<Option<T>>>, contents: Option<T>) -> (r: Result<
    Option<T>,
    LockFailure,
>) {
    match slot.lock() {
        Ok(mut guard) => Ok(std::mem::replace(&mut *guard, contents)),
        Err(_) => Err(LockFailure),
    }
}

/// A handle to a single-slot handoff cell. Cloned handles share one slot; at
/// most one undelivered value exists at any time.
#[verifier::reject_recursive_types(T)]
pub struct Mailbox<T> {
    inner: Arc<Mutex<Option<T>>>,
}

/// Invokes `callback` exactly when a value is pending, handing it ownership
/// of that value: this is the delivery half of [`Mailbox::if_new`], verified
/// for every possible slot contents.
pub fn deliver<T, F: FnOnce(T)>(pending: Option<T>, callback: F) -> (invoked: bool)
    requires
        pending matches Some(v) ==> call_requires(callback, (v,)),
    ensures
        invoked == pending is Some,
        pending matches Some(v) ==> call_ensures(callback, (v,), ()),
{
    match pending {
        Some(v) => {
            callback(v);
            true
        },
        None => false,
    }
}

impl<T> Mailbox<T> {
    /// A fresh mailbox whose slot starts empty.
    pub fn new() -> Mailbox<T> {
        Mailbox { inner: Arc::new(new_locked_slot(None)) }
    }

    /// Another handle to the same slot.
    pub fn clone(&self) -> (other: Mailbox<T>)
        ensures
            other == *self,
    {
        Mailbox { inner: clone_handle(&self.inner) }
    }

    /// Store `value`, unconditionally discarding any previously unread value:
    /// one `Put` step of the mailbox model, taken atomically under the lock.
    /// Never blocks; fails only when the lock reports failure.
    pub fn put(&self, value: T) -> Result<(), LockFailure> {
        match exchange_contents(&self.inner, Some(value)) {
            Ok(_discarded) => Ok(()),
            Err(failure) => Err(failure),
        }
    }

    /// Atomically take the stored value if one is present — one `Poll` step of
    /// the mailbox model — and hand it to `callback` through [`deliver`]:
    /// invoked exactly once when a value was pending, not at all when the slot
    /// was empty. Never blocks; fails only when the lock reports failure, and
    /// then the callback is not invoked.
    pub fn if_new<F: FnOnce(T)>(&self, callback: F) -> Result<(), LockFailure>
        requires
            forall|v: T| call_requires(callback, (v,)),
    {
        match exchange_contents(&self.inner, None) {
            Ok(pending) => {
                deliver(pending, callback);
                Ok(())
            },
            Err(failure) => Err(failure),
        }
    }
}

/// One operation on the slot, as serialized by the lock: a producer's `put`
/// of a value, or a consumer's `if_new` poll.
pub enum MailboxOp<T> {
    Put(T),
    Poll,
}

/// The slot contents after one operation: a put always replaces, never
/// queues; a poll always leaves the slot empty.
pub open spec fn slot_after<T>(slot: Option<T>, op: MailboxOp<T>) -> Option<T> {
    match op {
        MailboxOp::Put(v) => Some(v),
        MailboxOp::Poll => None,
    }
}

/// What one operation delivers to a callback: a poll takes whatever the slot
/// holds; a put delivers nothing.
pub open spec fn polled<T>(slot: Option<T>, op: MailboxOp<T>) -> Option<T> {
    match op {
        MailboxOp::Put(_) => None,
        MailboxOp::Poll => slot,
    }
}

/// All values delivered to callbacks over a sequence of operations applied to
/// a slot, in delivery order.
pub open spec fn deliveries<T>(slot: Option<T>, ops: Seq<MailboxOp<T>>) -> Seq<T>
    decreases ops.len(),
{
    if ops.len() == 0 {
        Seq::empty()
    } else {
        (match polled(slot, ops[0]) {
            Some(v) => seq![v],
            None => Seq::empty(),
        }) + deliveries(slot_after(slot, ops[0]), ops.drop_first())
    }
}

/// How many of the operations are polls.
pub open spec fn poll_count<T>(ops: Seq<MailboxOp<T>>) -> int
    decreases ops.len(),
{
    if ops.len() == 0 {
        0
    } else {
        (if ops[0] is Poll {
            1int
        } else {
            0int
        }) + poll_count(ops.drop_first())
    }
}

/// Whether some operation in the sequence put the value `v`.
pub open spec fn was_put<T>(ops: Seq<MailboxOp<T>>, v: T) -> bool {
    exists|j: int| 0 <= j < ops.len() && ops[j] == MailboxOp::Put(v)
}

/// Each poll delivers at most one value: over any interleaving, the number of
/// deliveries never exceeds the number of polls, so one `if_new` call never
/// observes two values.
pub proof fn lemma_deliveries_at_most_polls<T>(slot: Option<T>, ops: Seq<MailboxOp<T>>)
    ensures
        deliveries(slot, ops).len() <= poll_count(ops),
    decreases ops.len(),
{
    if ops.len() > 0 {
        lemma_deliveries_at_most_polls(slot_after(slot, ops[0]), ops.drop_first());
    }
}

/// Every delivered value was put by some operation of the interleaving, or
/// was already pending before it began: a poll can observe a value only once
/// and only after it was put, never an invented one.
pub proof fn lemma_delivered_value_was_put<T>(slot: Option<T>, ops: Seq<MailboxOp<T>>, i: int)
    requires
        0 <= i < deliveries(slot, ops).len(),
    ensures
        slot == Some(deliveries(slot, ops)[i]) || was_put(ops, deliveries(slot, ops)[i]),
    decreases ops.len(),
{
    let now = (match polled(slot, ops[0]) {
        Some(v) => seq![v],
        None => Seq::<T>::empty(),
    });
    let rest_slot = slot_after(slot, ops[0]);
    let rest = ops.drop_first();
    if i < now.len() {
        assert(slot == Some(deliveries(slot, ops)[i]));
    } else {
        lemma_delivered_value_was_put(rest_slot, rest, i - now.len());
        let v = deliveries(slot, ops)[i];
        assert(v == deliveries(rest_slot, rest)[i - now.len()]);
        if rest_slot == Some(v) {
            assert(ops[0] == MailboxOp::Put(v));
            assert(was_put(ops, v));
        } else {
            let j = choose|j: int| 0 <= j < rest.len() && rest[j] == MailboxOp::Put(v);
            assert(ops[j + 1] == MailboxOp::Put(v));
            assert(was_put(ops, v));
        }
    }
}

/// A mailbox that starts empty and sees no put delivers nothing: after any
/// number of polls, no callback has ever been invoked.
pub proof fn lemma_no_put_never_delivers<T>(ops: Seq<MailboxOp<T>>)
    requires
        forall|j: int| 0 <= j < ops.len() ==> !(ops[j] is Put),
    ensures
        deliveries(None::<T>, ops) =~= Seq::<T>::empty(),
    decreases ops.len(),
{
    if ops.len() > 0 {
        let rest = ops.drop_first();
        assert(!(ops[0] is Put));
        assert forall|j: int| 0 <= j < rest.len() implies !(rest[j] is Put) by {
            assert(!(ops[j + 1] is Put));
        }
        lemma_no_put_never_delivers(rest);
    }
}

} // verus!
