//! `MonoArc<T>`: a write-once `Option<Arc<T>>` whose payload may be
//! co-owned by many handles at once.  The cell follows the same
//! write-once protocol as [`crate::mono_box::MonoBox`] — upgraded from
//! `None` to `Some` at most once by the one-shot [`MonoArc::store`],
//! then frozen until an exclusive-access operation — and adds the two
//! shared-ownership operations: [`MonoArc::get`], which hands out a
//! new co-owning handle to the held value, and `clone`, which
//! duplicates the cell's handle without touching the value.

use std::sync::Arc;

use vstd::prelude::*;

use crate::mono_box::MonoBox;
use crate::write_once::store_effect;

verus! {

/// The value held by an optional shared handle, as an optional plain
/// value.
pub open spec fn shared_value<T>(slot: Option<Arc<T>>) -> Option<T> {
    match slot {
        Some(a) => Some(*a),
        None => None,
    }
}

/// A write-once `Option<Arc<T>>`.  The cell's view (`@`) is the value
/// it currently holds, if any.
pub struct MonoArc<T> {
    slot: Option<Arc<T>>,
}

impl<T> View for MonoArc<T> {
    type V = Option<T>;

    closed spec fn view(&self) -> Option<T> {
        shared_value(self.slot)
    }
}

/// Relies on `Arc::clone`: the clone is a second owning handle to the
/// same allocation, so it holds exactly the value the original holds;
/// the shared reference count is incremented and the value itself is
/// not touched.
#[verifier::external_body]
fn clone_handle<T>(handle: &Arc<T>) -> (r: Arc<T>)
    ensures
        r == *handle,
{
    Arc::clone(handle)
}

impl<T> MonoArc<T> {
    /// Returns a fresh `MonoArc` that holds `inner`.
    pub fn new(inner: Option<Arc<T>>) -> (r: Self)
        ensures
            r@ == shared_value(inner),
    {
        MonoArc { slot: inner }
    }

    /// Returns a fresh `MonoArc` that holds `None`.
    pub fn empty() -> (r: Self)
        ensures
            r@ is None,
    {
        MonoArc { slot: None }
    }

    /// Returns whether the `MonoArc`'s value is `None`.
    pub fn is_none(&self) -> (r: bool)
        ensures
            r <==> self@ is None,
    {
        self.slot.is_none()
    }

    /// Returns whether the `MonoArc`'s value is `Some`.
    pub fn is_some(&self) -> (r: bool)
        ensures
            r <==> self@ is Some,
    {
        !self.is_none()
    }

    /// Returns the value previously stored in this `MonoArc` and
    /// replaces it with `value`.  This is the exclusive-access escape
    /// hatch: it demands `&mut` access and may therefore change the
    /// cell non-monotonically.
    pub fn swap(&mut self, value: Option<Arc<T>>) -> (r: Option<Arc<T>>)
        ensures
            final(self)@ == shared_value(value),
            shared_value(r) == old(self)@,
    {
        let prior = self.slot.take();
        self.slot = value;
        prior
    }

    /// Attempts to store `value` in this `MonoArc`.  The operation
    /// succeeds iff it upgrades the `MonoArc` from `None` to `Some`:
    /// the first store wins, and a later store finds the cell
    /// populated, leaves it exactly as it is, and passes `value` back
    /// as `Err` so that no handle is lost or silently dropped.
    pub fn store(&mut self, value: Arc<T>) -> (r: Result<(), Arc<T>>)
        ensures
            final(self)@ == store_effect(old(self)@, *value),
            r is Ok <==> old(self)@ is None,
            r matches Err(v) ==> v == value && *final(self) == *old(self),
    {
        if self.slot.is_none() {
            self.slot = Some(value);
            Ok(())
        } else {
            Err(value)
        }
    }

    /// Attempts to store `value` in this `MonoArc`.  Returns true on
    /// success and false if there already was some value in the
    /// `MonoArc`, in which case the cell is left exactly as it was and
    /// `value` is dropped.
    pub fn store_value(&mut self, value: T) -> (r: bool)
        ensures
            final(self)@ == store_effect(old(self)@, value),
            r <==> old(self)@ is None,
            !r ==> *final(self) == *old(self),
    {
        self.store(Arc::new(value)).is_ok()
    }

    /// Gets the value stored in this `MonoArc`, if any.
    pub fn as_ref(&self) -> (r: Option<&T>)
        ensures
            r matches Some(v) ==> self@ == Some(*v),
            r is Some <==> self@ is Some,
    {
        match &self.slot {
            Some(a) => Some(&**a),
            None => None,
        }
    }

    /// Gets a new co-owning handle to the value stored in this
    /// `MonoArc`, if any.  Every call on a populated cell returns an
    /// independently owned handle to the same logical value; the cell
    /// itself is not changed.
    pub fn get(&self) -> (r: Option<Arc<T>>)
        ensures
            shared_value(r) == self@,
    {
        match &self.slot {
            Some(a) => Some(clone_handle(a)),
            None => None,
        }
    }

    /// Takes the value out of this `MonoArc`, leaving a `None` in its
    /// place.  Like `swap`, this demands exclusive access.
    pub fn take(&mut self) -> (r: Option<Arc<T>>)
        ensures
            final(self)@ is None,
            shared_value(r) == old(self)@,
    {
        self.swap(None)
    }

    /// Consumes this `MonoArc`, returning the wrapped value, if any.
    pub fn into_inner(self) -> (r: Option<Arc<T>>)
        ensures
            shared_value(r) == self@,
    {
        let mut cell = self;
        cell.take()
    }
}

/// Round trip: a `MonoArc` constructed holding `value` hands back a
/// handle to exactly `value` when it is consumed.  `new` pins the
/// cell's view at `Some(value)` and `into_inner` returns precisely the
/// view; this lemma records their composition.
pub proof fn lemma_arc_round_trip<T>(cell: MonoArc<T>, value: T, extracted: Option<Arc<T>>)
    requires
        cell@ == Some(value),
        shared_value(extracted) == cell@,
    ensures
        extracted matches Some(a) && *a == value,
{
}

/// Shared-handle independence: on a `MonoArc` holding `value`, every
/// call of `get` returns its own owned handle, and all of them are
/// handles to the same logical value.  `get` leaves the cell untouched
/// (it only takes `&self`), so any two of its results agree.
pub proof fn lemma_shared_handles_agree<T>(
    cell: MonoArc<T>,
    value: T,
    first: Option<Arc<T>>,
    second: Option<Arc<T>>,
)
    requires
        cell@ == Some(value),
        shared_value(first) == cell@,
        shared_value(second) == cell@,
    ensures
        first matches Some(a) && *a == value,
        second matches Some(a) && *a == value,
{
}

impl<T> Default for MonoArc<T> {
    /// A fresh `MonoArc` that holds `None`.
    fn default() -> (r: Self)
        ensures
            r@ is None,
    {
        MonoArc::empty()
    }
}

impl<T: core::ops::Deref> MonoArc<T> {
    /// Gets the value stored in this `MonoArc`, behind its own
    /// dereference, if any.  What the dereference yields is `T`'s
    /// business; the cell only promises that there is a target to hand
    /// out exactly when it is populated.
    pub fn as_deref(&self) -> (r: Option<&<T as core::ops::Deref>::Target>)
        ensures
            r is Some <==> self@ is Some,
    {
        match self.as_ref() {
            Some(t) => Some(t.deref()),
            None => None,
        }
    }
}

impl<T> From<T> for MonoArc<T> {
    /// A fresh `MonoArc` holding `value` behind a fresh shared handle.
    fn from(value: T) -> (r: MonoArc<T>)
        ensures
            r@ == Some(value),
    {
        MonoArc { slot: Some(Arc::new(value)) }
    }
}

impl<T> vstd::std_specs::convert::FromSpecImpl<T> for MonoArc<T> {
    open spec fn obeys_from_spec() -> bool {
        true
    }

    closed spec fn from_spec(value: T) -> MonoArc<T> {
        MonoArc { slot: Some(Arc::new(value)) }
    }
}

impl<T> From<Option<T>> for MonoArc<T> {
    /// A fresh `MonoArc` holding `value`, if any, behind a fresh
    /// shared handle.
    fn from(value: Option<T>) -> (r: MonoArc<T>)
        ensures
            r@ == value,
    {
        match value {
            Some(t) => MonoArc { slot: Some(Arc::new(t)) },
            None => MonoArc { slot: None },
        }
    }
}

impl<T> vstd::std_specs::convert::FromSpecImpl<Option<T>> for MonoArc<T> {
    open spec fn obeys_from_spec() -> bool {
        true
    }

    closed spec fn from_spec(value: Option<T>) -> MonoArc<T> {
        match value {
            Some(t) => MonoArc { slot: Some(Arc::new(t)) },
            None => MonoArc { slot: None },
        }
    }
}

impl<T> From<Arc<T>> for MonoArc<T> {
    /// A fresh `MonoArc` holding the shared handle `value`.
    fn from(value: Arc<T>) -> (r: MonoArc<T>)
        ensures
            r@ == Some(*value),
    {
        MonoArc { slot: Some(value) }
    }
}

impl<T> vstd::std_specs::convert::FromSpecImpl<Arc<T>> for MonoArc<T> {
    open spec fn obeys_from_spec() -> bool {
        true
    }

    closed spec fn from_spec(value: Arc<T>) -> MonoArc<T> {
        MonoArc { slot: Some(value) }
    }
}

impl<T> From<Option<Arc<T>>> for MonoArc<T> {
    /// A fresh `MonoArc` holding the shared handle `value`, if any.
    fn from(value: Option<Arc<T>>) -> (r: MonoArc<T>)
        ensures
            r@ == shared_value(value),
    {
        MonoArc { slot: value }
    }
}

impl<T> vstd::std_specs::convert::FromSpecImpl<Option<Arc<T>>> for MonoArc<T> {
    open spec fn obeys_from_spec() -> bool {
        true
    }

    closed spec fn from_spec(value: Option<Arc<T>>) -> MonoArc<T> {
        MonoArc { slot: value }
    }
}

impl<T> From<MonoArc<T>> for Option<Arc<T>> {
    /// The shared handle the `MonoArc` holds, if any.
    fn from(mono: MonoArc<T>) -> (r: Option<Arc<T>>)
        ensures
            shared_value(r) == mono@,
    {
        mono.slot
    }
}

impl<T> vstd::std_specs::convert::FromSpecImpl<MonoArc<T>> for Option<Arc<T>> {
    open spec fn obeys_from_spec() -> bool {
        true
    }

    closed spec fn from_spec(mono: MonoArc<T>) -> Option<Arc<T>> {
        mono.slot
    }
}

impl<'a, T> From<&'a MonoArc<T>> for Option<&'a T> {
    /// A reference to the value the `MonoArc` holds, if any.
    fn from(mono: &'a MonoArc<T>) -> (r: Option<&'a T>)
        ensures
            r matches Some(v) ==> mono@ == Some(*v),
            r is Some <==> mono@ is Some,
    {
        match &mono.slot {
            Some(a) => Some(&**a),
            None => None,
        }
    }
}

impl<'a, T> vstd::std_specs::convert::FromSpecImpl<&'a MonoArc<T>> for Option<&'a T> {
    open spec fn obeys_from_spec() -> bool {
        true
    }

    closed spec fn from_spec(mono: &'a MonoArc<T>) -> Option<&'a T> {
        match &mono.slot {
            Some(a) => Some(&**a),
            None => None,
        }
    }
}

impl<T> From<MonoBox<T>> for MonoArc<T> {
    /// Re-wraps the value of an exclusively owned `MonoBox`, if any,
    /// as a freshly shared allocation: the uniquely owned box is taken
    /// apart and its value moves into a new shared handle.
    fn from(mono: MonoBox<T>) -> (r: MonoArc<T>)
        ensures
            r@ == mono@,
    {
        match mono.into_inner() {
            Some(b) => MonoArc { slot: Some(Arc::new(*b)) },
            None => MonoArc { slot: None },
        }
    }
}

impl<T> vstd::std_specs::convert::FromSpecImpl<MonoBox<T>> for MonoArc<T> {
    open spec fn obeys_from_spec() -> bool {
        true
    }

    closed spec fn from_spec(mono: MonoBox<T>) -> MonoArc<T> {
        match mono@ {
            Some(t) => MonoArc { slot: Some(Arc::new(t)) },
            None => MonoArc { slot: None },
        }
    }
}

impl<T> Clone for MonoArc<T> {
    /// Duplicates the cell's handle to its value, without touching the
    /// value itself: the new cell holds exactly what the source holds.
    fn clone(&self) -> (r: Self)
        ensures
            r@ == self@,
    {
        match &self.slot {
            Some(a) => MonoArc { slot: Some(clone_handle(a)) },
            None => MonoArc { slot: None },
        }
    }
}

} // verus!
