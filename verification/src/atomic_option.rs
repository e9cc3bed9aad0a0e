//! A slot that holds a value or nothing, with the interface of an atomic cell.

use vstd::prelude::*;

use std::sync::atomic::Ordering;

verus! {

/// Whether a load may be made with `ordering`. `Release` and `AcqRel` order stores only, and
/// std's atomic loads panic on them.
pub open spec fn orders_loads(ordering: Ordering) -> bool {
    !(ordering is Release) && !(ordering is AcqRel)
}

/// The contents of a slot after a call that fills it only if it is empty.
pub open spec fn filled<T>(contents: Option<T>, value: T) -> Option<T> {
    match contents {
        Some(present) => Some(present),
        None => Some(value),
    }
}

/// A slot for a value of type `T`.
///
/// Writers hold the slot exclusively, so each call is one step that no other call can divide. The
/// memory orderings that the methods take say how a step relates to steps of other threads; the
/// step itself is the same for each of them.
pub struct AtomicOption<T>(Option<T>);

impl<T> View for AtomicOption<T> {
    type V = Option<T>;

    closed spec fn view(&self) -> Option<T> {
        self.0
    }
}

impl<T> AtomicOption<T> {
    /// A slot that holds `value`.
    pub fn some(value: T) -> (slot: Self)
        ensures
            slot@ == Some(value),
    {
        AtomicOption(Some(value))
    }

    /// A slot that holds nothing.
    pub fn none() -> (slot: Self)
        ensures
            slot@ == None::<T>,
    {
        AtomicOption(None)
    }

    /// Puts `value` into the slot and drops what was there.
    pub fn store(&mut self, ordering: Ordering, value: T)
        ensures
            final(self)@ == Some(value),
    {
        self.0 = Some(value);
    }

    /// Puts `value` into the slot, drops what was there, and hands out a reference to `value`.
    pub fn get_or_store(&mut self, ordering: Ordering, value: T) -> (stored: &T)
        ensures
            *stored == value,
            final(self)@ == Some(value),
    {
        &*self.0.insert(value)
    }

    /// Hands out what the slot holds. An empty slot is filled with `value_fn()` first; a slot that
    /// holds a value keeps it, and `value_fn` is not called.
    pub fn get_or_store_with<F>(
        &mut self,
        set_ordering: Ordering,
        get_ordering: Ordering,
        value_fn: F,
    ) -> (held: &T) where F: Fn() -> T
        requires
            orders_loads(get_ordering),
            old(self)@ is None ==> call_requires(value_fn, ()),
        ensures
            final(self)@ == Some(*held),
            final(self)@ == filled(old(self)@, *held),
            old(self)@ is Some ==> final(self)@ == old(self)@,
            old(self)@ is None ==> call_ensures(value_fn, (), *held),
    {
        if self.0.is_none() {
            self.0 = Some(value_fn());
        }
        self.0.as_ref().unwrap()
    }

    /// A reference to what the slot holds.
    pub fn as_ref(&self, ordering: Ordering) -> (held: Option<&T>)
        requires
            orders_loads(ordering),
        ensures
            held == (match self@ {
                Some(value) => Some(&value),
                None => None,
            }),
    {
        match &self.0 {
            Some(value) => Some(value),
            None => None,
        }
    }

    /// Moves the value out of the slot, which is empty afterwards.
    pub fn take(&mut self, ordering: Ordering) -> (held: Option<T>)
        ensures
            held == old(self)@,
            final(self)@ == None::<T>,
    {
        self.0.take()
    }

    /// Whether the slot is empty.
    pub fn is_none(&self, ordering: Ordering) -> (empty: bool)
        requires
            orders_loads(ordering),
        ensures
            empty == (self@ is None),
    {
        self.as_ref(ordering).is_none()
    }

    /// Whether the slot holds a value.
    pub fn is_some(&self, ordering: Ordering) -> (full: bool)
        requires
            orders_loads(ordering),
        ensures
            full == (self@ is Some),
    {
        self.as_ref(ordering).is_some()
    }
}

/// The orderings that a load may be made with, and those that it may not.
pub proof fn law_load_orderings(ordering: Ordering)
    ensures
        ordering is Relaxed || ordering is Acquire || ordering is SeqCst ==> orders_loads(ordering),
        ordering is Release || ordering is AcqRel ==> !orders_loads(ordering),
{
}

/// A slot is filled at most once: what a first call put there, a second call hands out again.
pub proof fn law_filled_once<T>(contents: Option<T>, first: T, second: T)
    ensures
        filled(filled(contents, first), second) == filled(contents, first),
        filled(contents, first) is Some,
        contents is None ==> filled(contents, first) == Some(first),
        contents is Some ==> filled(contents, first) == contents,
{
}

}
