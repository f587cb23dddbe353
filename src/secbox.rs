use vstd::prelude::*;

verus! {

/// A container that owns exactly one value in a heap allocation of its own.
///
/// Access goes through `Deref` and `DerefMut` and never copies the value;
/// only `clone` and `into_inner` move data out. Formatting shows a fixed
/// placeholder. The order in which its region is pinned, zeroed, unpinned and
/// released is the protocol of `crate::lifecycle`; the raw memory operations
/// that carry it out are done outside this library.
///
/// Wrapping a value does not protect what the value points to: wrap the inner
/// data (`Vec<SecBox<T>>` rather than `SecBox<Vec<T>>`).
pub struct SecBox<T: ?Sized> {
    inner: Box<T>,
}

impl<T: ?Sized> SecBox<T> {
    /// The value held.
    pub closed spec fn value(&self) -> &T {
        &*self.inner
    }
}

impl<T> SecBox<T> {
    /// Puts `inner` into an allocation of its own.
    pub fn new(inner: T) -> (r: SecBox<T>)
        ensures
            r.value() == inner,
    {
        SecBox { inner: Box::new(inner) }
    }

    /// Moves the value out of the container. The value returned is no longer protected.
    pub fn into_inner(self) -> (r: T)
        ensures
            r == self.value(),
    {
        *self.inner
    }
}

impl<T: ?Sized> core::ops::Deref for SecBox<T> {
    type Target = T;

    fn deref(&self) -> (r: &T)
        ensures
            r == self.value(),
    {
        &*self.inner
    }
}

impl<T: ?Sized> core::ops::DerefMut for SecBox<T> {
    fn deref_mut(&mut self) -> (r: &mut T)
        ensures
            &*r == old(self).value(),
            final(self).value() == &*final(r),
    {
        &mut *self.inner
    }
}

impl<T: Clone> Clone for SecBox<T> {
    /// A new container holding a clone of the value; the two share nothing.
    fn clone(&self) -> (r: SecBox<T>)
        ensures
            cloned::<T>(*self.value(), *r.value()),
    {
        SecBox { inner: self.inner.clone() }
    }

    /// Replaces the value held with a clone of `src`'s, keeping this container's allocation.
    fn clone_from(&mut self, src: &SecBox<T>)
        ensures
            cloned::<T>(*src.value(), *final(self).value()),
    {
        *self.inner = (*src.inner).clone();
    }
}

/// The placeholder that stands for the value wherever a container is formatted.
pub const REDACTED: &'static str = "*******";

impl<T: ?Sized> SecBox<T> {
    /// Formats the container: always the placeholder, never the value.
    pub fn fmt_redacted(&self) -> (r: String)
        ensures
            r@ == seq!['*', '*', '*', '*', '*', '*', '*'],
    {
        proof {
            reveal_strlit("*******");
        }
        let r = REDACTED.to_owned();
        assert(r@ =~= seq!['*', '*', '*', '*', '*', '*', '*']);
        r
    }
}

impl<T: ?Sized> From<Box<T>> for SecBox<T> {
    /// Takes over an allocation that already holds the value, such as one of unsized type.
    fn from(from: Box<T>) -> (r: SecBox<T>)
        ensures
            r.value() == &*from,
    {
        SecBox { inner: from }
    }
}

impl<T: ?Sized> vstd::std_specs::convert::FromSpecImpl<Box<T>> for SecBox<T> {
    open spec fn obeys_from_spec() -> bool {
        true
    }

    closed spec fn from_spec(v: Box<T>) -> SecBox<T> {
        SecBox { inner: v }
    }
}

} // verus!
