//! Small generic helpers.
use vstd::prelude::*;
use vstd::std_specs::cmp::PartialEqSpec;

verus! {

/// `Option` to `Result`, computing the error case.
pub trait OptionExt<T>: Sized {
    /// The value held, if any.
    spec fn held(&self) -> Option<T>;

    /// The held value, or what `f` returns when there is none; `f` is
    /// called only then.
    fn ok_or_try<E, F: FnOnce() -> Result<T, E>>(self, f: F) -> (r: Result<T, E>)
        requires
            self.held() is None ==> f.requires(()),
        ensures
            self.held() matches Some(v) ==> r == Ok::<T, E>(v),
            self.held() is None ==> f.ensures((), r),
    ;
}

impl<T> OptionExt<T> for Option<T> {
    open spec fn held(&self) -> Option<T> {
        *self
    }

    fn ok_or_try<E, F: FnOnce() -> Result<T, E>>(self, f: F) -> (r: Result<T, E>) {
        match self {
            Some(v) => Ok(v),
            None => f(),
        }
    }
}

/// Assignment that reports whether the value changed.
pub trait NeqAssign: PartialEq + Sized {
    /// Replaces `self` by `rhs` when they differ; returns whether it did.
    fn neq_assign(&mut self, rhs: Self) -> (r: bool)
        ensures
            Self::obeys_eq_spec() ==> r == !(*old(self)).eq_spec(&rhs),
            r ==> *final(self) == rhs,
            !r ==> *final(self) == *old(self),
    ;
}

impl<T: PartialEq> NeqAssign for T {
    fn neq_assign(&mut self, rhs: Self) -> (r: bool) {
        if *self == rhs {
            false
        } else {
            *self = rhs;
            true
        }
    }
}

/// A stream held by value, lent out by reference.
pub struct StreamMap<S> {
    stream: S,
}

impl<S> StreamMap<S> {
    /// The stream held.
    pub closed spec fn inner(&self) -> S {
        self.stream
    }

    /// Wraps `stream`.
    pub fn new(stream: S) -> (r: Self)
        ensures
            r.inner() == stream,
    {
        StreamMap { stream }
    }

    /// The stream.
    pub fn as_ref(&self) -> (r: &S)
        ensures
            *r == self.inner(),
    {
        &self.stream
    }

    /// The stream, to poll it.
    pub fn as_mut(&mut self) -> (r: &mut S)
        ensures
            *r == old(self).inner(),
            final(self).inner() == *final(r),
    {
        &mut self.stream
    }

    /// Unwraps the stream.
    pub fn into_inner(self) -> (r: S)
        ensures
            r == self.inner(),
    {
        self.stream
    }
}

} // verus!
