//! `RentToOwn<T>`: a wrapper for optionally giving up ownership of a value.
//!
//! A function that may or may not want to keep a `T` receives it on loan
//! through a `RentToOwn<T>`. While the value is present the wrapper gives
//! shared and exclusive access to it; `take` moves the value out and leaves
//! the wrapper unusable for the rest of its life. `RentToOwn::with` makes the
//! wrapper, lends it to a callback and reports afterwards both what the
//! callback returned and whatever value is left.
//!
//! Use after take is ruled out statically for verified callers: every access
//! requires the value to be present, and `take` leaves it absent. A caller
//! outside verification that breaks this rule gets a panic at the access,
//! never a stale value.

use vstd::prelude::*;

verus! {

/// A wrapper around a `T` that lets its user either take ownership of the
/// inner value or simply use it like a `&mut T`.
///
/// Its view is the content of its slot: `Some(v)` while the value is
/// present, `None` once it has been taken. Values of this type are made only
/// by `RentToOwn::with`, and live only as long as the callback it calls.
pub struct RentToOwn<T> {
    inner: Option<T>,
}

impl<T> View for RentToOwn<T> {
    type V = Option<T>;

    closed spec fn view(&self) -> Option<T> {
        self.inner
    }
}

impl<T> RentToOwn<T> {
    /// Give the callback `f` the option to take ownership of `inner`.
    ///
    /// A wrapper holding `inner` is lent to `f`, and `f` is called once. The
    /// result is the pair of what is left in the wrapper when `f` returns
    /// (`None` if `f` took the value, else `Some` of the value as `f` left
    /// it) and the value that `f` returned.
    pub fn with<F, U>(inner: T, f: F) -> (r: (Option<T>, U))
        where
            F: FnOnce(&mut RentToOwn<T>) -> U,
        requires
            forall|w: &mut RentToOwn<T>| w@ == Some(inner) ==> #[trigger] f.requires((w,)),
        ensures
            exists|w: &mut RentToOwn<T>|
                #![trigger f.ensures((w,), r.1)]
                w@ == Some(inner) && f.ensures((w,), r.1) && r.0 == (*final(w))@,
    {
        let ghost v = inner;
        let mut me = RentToOwn { inner: Some(inner) };
        let w = &mut me;
        assert(w@ == Some(v));
        let u = f(w);
        // Name the borrow that `f` was called with: it held `v`, and its
        // final value is the wrapper as `f` left it.
        let ghost lent = choose|lent: &mut RentToOwn<T>|
            #[trigger] f.ensures((lent,), u) && lent@ == Some(v) && *final(lent) == me;
        let r = (me.inner, u);
        assert(f.ensures((lent,), r.1) && r.0 == (*final(lent))@);
        r
    }

    /// Shared access to the inner value, which must still be present.
    pub fn deref(&self) -> (r: &T)
        requires
            self@ is Some,
        ensures
            *r == self@->0,
    {
        self.inner.as_ref().unwrap()
    }

    /// Exclusive access to the inner value, which must still be present.
    /// What is written through the result is what the wrapper then holds.
    pub fn deref_mut(&mut self) -> (r: &mut T)
        requires
            old(self)@ is Some,
        ensures
            *r == old(self)@->0,
            final(self)@ == Some(*final(r)),
    {
        self.inner.as_mut().unwrap()
    }

    /// Take ownership of the inner value, which must still be present.
    /// The wrapper is empty afterwards, so no access to it is allowed again.
    pub fn take(&mut self) -> (r: T)
        requires
            old(self)@ is Some,
        ensures
            r == old(self)@->0,
            final(self)@ is None,
    {
        self.inner.take().unwrap()
    }
}

/// A callback that leaves the value in place hands it back: where `r` is
/// what `RentToOwn::with(v, f)` returns (the second requirement is what
/// `with` guarantees), `r.0` is `Some` of the value as `f` left it, beside
/// what `f` returned; where `f` does not change the value, it is `Some(v)`.
pub proof fn lemma_untaken_value_is_returned<T, F, U>(v: T, f: F, r: (Option<T>, U))
    where
        F: FnOnce(&mut RentToOwn<T>) -> U,
    requires
        forall|w: &mut RentToOwn<T>, u: U|
            w@ == Some(v) && #[trigger] f.ensures((w,), u) ==> (*final(w))@ is Some,
        exists|w: &mut RentToOwn<T>|
            #![trigger f.ensures((w,), r.1)]
            w@ == Some(v) && f.ensures((w,), r.1) && r.0 == (*final(w))@,
    ensures
        r.0 is Some,
        (forall|w: &mut RentToOwn<T>, u: U|
            w@ == Some(v) && #[trigger] f.ensures((w,), u) ==> (*final(w))@ == w@)
            ==> r.0 == Some(v),
{
}

/// A callback that takes the value keeps it: where `r` is what
/// `RentToOwn::with(v, f)` returns (the second requirement is what `with`
/// guarantees), `r.0` is `None`, beside what `f` returned.
pub proof fn lemma_taken_value_is_not_returned<T, F, U>(v: T, f: F, r: (Option<T>, U))
    where
        F: FnOnce(&mut RentToOwn<T>) -> U,
    requires
        forall|w: &mut RentToOwn<T>, u: U|
            w@ == Some(v) && #[trigger] f.ensures((w,), u) ==> (*final(w))@ is None,
        exists|w: &mut RentToOwn<T>|
            #![trigger f.ensures((w,), r.1)]
            w@ == Some(v) && f.ensures((w,), r.1) && r.0 == (*final(w))@,
    ensures
        r.0 is None,
{
}

} // verus!
