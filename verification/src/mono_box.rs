//! `MonoBox<T>`: a write-once `Option<Box<T>>` with a single exclusive
//! owner.  The cell starts empty (or pre-populated at construction)
//! and is upgraded from `None` to `Some` at most once by the one-shot
//! [`MonoBox::store`]; a rejected store hands the caller's box back
//! untouched.  Once populated the contents are frozen: only the
//! exclusive-access operations [`MonoBox::swap`] and [`MonoBox::take`],
//! which demand `&mut` access and so a caller that no one else can
//! race with, may replace or remove the value.

use vstd::prelude::*;

use crate::write_once::store_effect;

verus! {

/// The value held by an optional box, as an optional plain value.
pub open spec fn boxed_value<T>(slot: Option<Box<T>>) -> Option<T> {
    match slot {
        Some(b) => Some(*b),
        None => None,
    }
}

/// A write-once `Option<Box<T>>`.  The cell's view (`@`) is the value
/// it currently holds, if any.
pub struct MonoBox<T> {
    slot: Option<Box<T>>,
}

impl<T> View for MonoBox<T> {
    type V = Option<T>;

    closed spec fn view(&self) -> Option<T> {
        boxed_value(self.slot)
    }
}

impl<T> MonoBox<T> {
    /// Returns a fresh `MonoBox` that holds `inner`.
    pub fn new(inner: Option<Box<T>>) -> (r: Self)
        ensures
            r@ == boxed_value(inner),
    {
        MonoBox { slot: inner }
    }

    /// Returns a fresh `MonoBox` that holds `None`.
    pub fn empty() -> (r: Self)
        ensures
            r@ is None,
    {
        MonoBox { slot: None }
    }

    /// Returns whether the `MonoBox`'s value is `None`.
    pub fn is_none(&self) -> (r: bool)
        ensures
            r <==> self@ is None,
    {
        self.slot.is_none()
    }

    /// Returns whether the `MonoBox`'s value is `Some`.
    pub fn is_some(&self) -> (r: bool)
        ensures
            r <==> self@ is Some,
    {
        !self.is_none()
    }

    /// Returns the value previously stored in this `MonoBox` and
    /// replaces it with `value`.  This is the exclusive-access escape
    /// hatch: it demands `&mut` access and may therefore change the
    /// cell non-monotonically.
    pub fn swap(&mut self, value: Option<Box<T>>) -> (r: Option<Box<T>>)
        ensures
            final(self)@ == boxed_value(value),
            boxed_value(r) == old(self)@,
    {
        let prior = self.slot.take();
        self.slot = value;
        prior
    }

    /// Attempts to store `value` in this `MonoBox`.  The operation
    /// succeeds iff it upgrades the `MonoBox` from `None` to `Some`:
    /// the first store wins, and a later store finds the cell
    /// populated, leaves it exactly as it is, and passes `value` back
    /// as `Err` so that nothing is lost or silently dropped.
    pub fn store(&mut self, value: Box<T>) -> (r: Result<(), Box<T>>)
        ensures
            final(self)@ == store_effect(old(self)@, *value),
            r is Ok <==> old(self)@ is None,
            r matches Err(v) ==> v == value && *final(self) == *old(self),
    {
        if self.slot.is_none() {
            self.slot = Some(value);
            Ok(())
        } else {
            Err(value)
        }
    }

    /// Attempts to store `value` in this `MonoBox`.  Returns true on
    /// success and false if there was already some value in the
    /// `MonoBox`, in which case the cell is left exactly as it was and
    /// `value` is dropped.
    pub fn store_value(&mut self, value: T) -> (r: bool)
        ensures
            final(self)@ == store_effect(old(self)@, value),
            r <==> old(self)@ is None,
            !r ==> *final(self) == *old(self),
    {
        self.store(Box::new(value)).is_ok()
    }

    /// Gets the value stored in this `MonoBox`, if any.
    pub fn as_ref(&self) -> (r: Option<&T>)
        ensures
            r matches Some(v) ==> self@ == Some(*v),
            r is Some <==> self@ is Some,
    {
        match &self.slot {
            Some(b) => Some(&**b),
            None => None,
        }
    }

    /// Gets mutable access to the value stored in this `MonoBox`, if
    /// any.  Mutating the pointee is the caller's business and needs
    /// exclusive access; the cell itself stays populated.
    pub fn as_mut(&mut self) -> (r: Option<&mut T>)
        ensures
            r is Some <==> old(self)@ is Some,
            r matches Some(m) ==> old(self)@ == Some(*m) && final(self)@ == Some(*final(m)),
            r is None ==> *final(self) == *old(self),
    {
        match &mut self.slot {
            Some(b) => Some(&mut **b),
            None => None,
        }
    }

    /// Takes the value out of this `MonoBox`, leaving a `None` in its
    /// place.  Like `swap`, this demands exclusive access.
    pub fn take(&mut self) -> (r: Option<Box<T>>)
        ensures
            final(self)@ is None,
            boxed_value(r) == old(self)@,
    {
        self.swap(None)
    }

    /// Consumes this `MonoBox`, returning the wrapped value, if any.
    pub fn into_inner(self) -> (r: Option<Box<T>>)
        ensures
            boxed_value(r) == self@,
    {
        let mut cell = self;
        cell.take()
    }
}

/// Round trip: a `MonoBox` constructed holding `value` hands back
/// exactly `value` when it is consumed.  `new` pins the cell's view at
/// `Some(value)` and `into_inner` returns precisely the view; this
/// lemma records their composition: whatever box comes back holds
/// `value` itself.
pub proof fn lemma_box_round_trip<T>(cell: MonoBox<T>, value: T, extracted: Option<Box<T>>)
    requires
        cell@ == Some(value),
        boxed_value(extracted) == cell@,
    ensures
        extracted matches Some(b) && *b == value,
{
}

impl<T> Default for MonoBox<T> {
    /// A fresh `MonoBox` that holds `None`.
    fn default() -> (r: Self)
        ensures
            r@ is None,
    {
        MonoBox::empty()
    }
}

impl<T> From<T> for MonoBox<T> {
    /// A fresh `MonoBox` holding `value` behind a fresh box.
    fn from(value: T) -> (r: MonoBox<T>)
        ensures
            r@ == Some(value),
    {
        MonoBox { slot: Some(Box::new(value)) }
    }
}

impl<T> vstd::std_specs::convert::FromSpecImpl<T> for MonoBox<T> {
    open spec fn obeys_from_spec() -> bool {
        true
    }

    closed spec fn from_spec(value: T) -> MonoBox<T> {
        MonoBox { slot: Some(Box::new(value)) }
    }
}

impl<T> From<Option<T>> for MonoBox<T> {
    /// A fresh `MonoBox` holding `value`, if any, behind a fresh box.
    fn from(value: Option<T>) -> (r: MonoBox<T>)
        ensures
            r@ == value,
    {
        match value {
            Some(t) => MonoBox { slot: Some(Box::new(t)) },
            None => MonoBox { slot: None },
        }
    }
}

impl<T> vstd::std_specs::convert::FromSpecImpl<Option<T>> for MonoBox<T> {
    open spec fn obeys_from_spec() -> bool {
        true
    }

    closed spec fn from_spec(value: Option<T>) -> MonoBox<T> {
        match value {
            Some(t) => MonoBox { slot: Some(Box::new(t)) },
            None => MonoBox { slot: None },
        }
    }
}

impl<T> From<Box<T>> for MonoBox<T> {
    /// A fresh `MonoBox` holding the box `value`.
    fn from(value: Box<T>) -> (r: MonoBox<T>)
        ensures
            r@ == Some(*value),
    {
        MonoBox { slot: Some(value) }
    }
}

impl<T> vstd::std_specs::convert::FromSpecImpl<Box<T>> for MonoBox<T> {
    open spec fn obeys_from_spec() -> bool {
        true
    }

    closed spec fn from_spec(value: Box<T>) -> MonoBox<T> {
        MonoBox { slot: Some(value) }
    }
}

impl<T> From<Option<Box<T>>> for MonoBox<T> {
    /// A fresh `MonoBox` holding the box `value`, if any.
    fn from(value: Option<Box<T>>) -> (r: MonoBox<T>)
        ensures
            r@ == boxed_value(value),
    {
        MonoBox { slot: value }
    }
}

impl<T> vstd::std_specs::convert::FromSpecImpl<Option<Box<T>>> for MonoBox<T> {
    open spec fn obeys_from_spec() -> bool {
        true
    }

    closed spec fn from_spec(value: Option<Box<T>>) -> MonoBox<T> {
        MonoBox { slot: value }
    }
}

impl<T> From<MonoBox<T>> for Option<Box<T>> {
    /// The box the `MonoBox` holds, if any.
    fn from(mono: MonoBox<T>) -> (r: Option<Box<T>>)
        ensures
            boxed_value(r) == mono@,
    {
        mono.slot
    }
}

impl<T> vstd::std_specs::convert::FromSpecImpl<MonoBox<T>> for Option<Box<T>> {
    open spec fn obeys_from_spec() -> bool {
        true
    }

    closed spec fn from_spec(mono: MonoBox<T>) -> Option<Box<T>> {
        mono.slot
    }
}

impl<T> From<MonoBox<T>> for Option<T> {
    /// The value the `MonoBox` holds, if any, out of its box.
    fn from(mono: MonoBox<T>) -> (r: Option<T>)
        ensures
            r == mono@,
    {
        match mono.slot {
            Some(b) => Some(*b),
            None => None,
        }
    }
}

impl<T> vstd::std_specs::convert::FromSpecImpl<MonoBox<T>> for Option<T> {
    open spec fn obeys_from_spec() -> bool {
        true
    }

    closed spec fn from_spec(mono: MonoBox<T>) -> Option<T> {
        mono@
    }
}

impl<'a, T> From<&'a MonoBox<T>> for Option<&'a T> {
    /// A reference to the value the `MonoBox` holds, if any.
    fn from(mono: &'a MonoBox<T>) -> (r: Option<&'a T>)
        ensures
            r matches Some(v) ==> mono@ == Some(*v),
            r is Some <==> mono@ is Some,
    {
        match &mono.slot {
            Some(b) => Some(&**b),
            None => None,
        }
    }
}

impl<'a, T> vstd::std_specs::convert::FromSpecImpl<&'a MonoBox<T>> for Option<&'a T> {
    open spec fn obeys_from_spec() -> bool {
        true
    }

    closed spec fn from_spec(mono: &'a MonoBox<T>) -> Option<&'a T> {
        match &mono.slot {
            Some(b) => Some(&**b),
            None => None,
        }
    }
}

impl<T: core::ops::Deref> MonoBox<T> {
    /// Gets the value stored in this `MonoBox`, behind its own
    /// dereference, if any.  What the dereference yields is `T`'s
    /// business; the cell only promises that there is a target to hand
    /// out exactly when it is populated.
    pub fn as_deref(&self) -> (r: Option<&<T as core::ops::Deref>::Target>)
        ensures
            r is Some <==> self@ is Some,
    {
        match self.as_ref() {
            Some(t) => Some(t.deref()),
            None => None,
        }
    }
}

impl<T: core::ops::DerefMut> MonoBox<T> {
    /// Gets mutable access to the value stored in this `MonoBox`,
    /// behind its own dereference, if any.  As with `as_deref`, what
    /// the dereference yields is `T`'s business.
    pub fn as_deref_mut(&mut self) -> (r: Option<&mut <T as core::ops::Deref>::Target>)
        ensures
            r is Some <==> old(self)@ is Some,
            r is None ==> *final(self) == *old(self),
    {
        match self.as_mut() {
            Some(t) => Some(t.deref_mut()),
            None => None,
        }
    }
}

} // verus!
