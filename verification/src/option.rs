//! The optional-value type and its combinators.

use vstd::prelude::*;

verus! {

/// A value that is either there (`Present`) or not (`Absent`).
#[derive(Debug, PartialEq)]
pub enum MyOption<T> {
    /// No value.
    Absent,
    /// A value of type `T`.
    Present(T),
}

impl<T> MyOption<T> {
    /// Whether a value is present.
    pub open spec fn spec_is_some(&self) -> bool {
        self is Present
    }

    /// Returns `true` exactly when a value is present.
    #[verifier::when_used_as_spec(spec_is_some)]
    pub fn is_some(&self) -> (b: bool)
        ensures
            b == (self is Present),
    {
        match self {
            MyOption::Present(_) => true,
            MyOption::Absent => false,
        }
    }

    /// Whether no value is present.
    pub open spec fn spec_is_none(&self) -> bool {
        self is Absent
    }

    /// Returns `true` exactly when no value is present.
    #[verifier::when_used_as_spec(spec_is_none)]
    pub fn is_none(&self) -> (b: bool)
        ensures
            b == (self is Absent),
    {
        !self.is_some()
    }

    /// Borrows the value held, leaving `self` in place.
    pub fn as_ref(&self) -> (r: MyOption<&T>)
        ensures
            r is Present <==> self is Present,
            r matches MyOption::Present(t) ==> *self == MyOption::Present(*t),
    {
        match self {
            MyOption::Present(t) => MyOption::Present(t),
            MyOption::Absent => MyOption::Absent,
        }
    }

    /// Borrows the value held mutably: what the caller writes through the
    /// reference handed out is what `self` holds afterwards.
    pub fn as_mut(&mut self) -> (r: MyOption<&mut T>)
        ensures
            match *old(self) {
                MyOption::Absent => r is Absent && *final(self) is Absent,
                MyOption::Present(t) => {
                    &&& r matches MyOption::Present(m)
                    &&& *m == t
                    &&& *final(self) == MyOption::Present(*final(m))
                },
            },
    {
        match self {
            MyOption::Present(t) => MyOption::Present(t),
            MyOption::Absent => MyOption::Absent,
        }
    }

    /// Applies `f` to the value held and wraps what it returns; absence stays
    /// absence, whatever `f` is, and `f` is then not called.
    pub fn map<U, F>(self, f: F) -> (r: MyOption<U>) where F: FnOnce(T) -> U
        requires
            self matches MyOption::Present(t) ==> f.requires((t,)),
        ensures
            match self {
                MyOption::Present(t) => r matches MyOption::Present(u) && f.ensures((t,), u),
                MyOption::Absent => r is Absent,
            },
    {
        match self {
            MyOption::Present(t) => MyOption::Present(f(t)),
            MyOption::Absent => MyOption::Absent,
        }
    }

    /// Applies `f` to the value held, or returns `default` when there is
    /// none. `default` is built by the caller in either case.
    pub fn map_or<F, U>(self, default: U, f: F) -> (r: U) where F: FnOnce(T) -> U
        requires
            self matches MyOption::Present(t) ==> f.requires((t,)),
        ensures
            match self {
                MyOption::Present(t) => f.ensures((t,), r),
                MyOption::Absent => r == default,
            },
    {
        match self {
            MyOption::Present(val) => f(val),
            MyOption::Absent => default,
        }
    }

    /// Applies `f` to the value held, or calls `default` when there is none.
    /// Only the one of the two that is needed has to be callable, and only
    /// that one is called.
    pub fn map_or_else<U, D, F>(self, default: D, f: F) -> (r: U) where
        D: FnOnce() -> U,
        F: FnOnce(T) -> U,

        requires
            self matches MyOption::Present(t) ==> f.requires((t,)),
            self is Absent ==> default.requires(()),
        ensures
            match self {
                MyOption::Present(t) => f.ensures((t,), r),
                MyOption::Absent => default.ensures((), r),
            },
    {
        match self {
            MyOption::Present(val) => f(val),
            MyOption::Absent => default(),
        }
    }

    /// The value held, where there is one.
    pub open spec fn spec_unwrap(self) -> T
        recommends
            self is Present,
    {
        self->Present_0
    }

    /// Hands out the value held. There must be one: the caller shows that
    /// `self` is present. A caller that Verus has not seen and that passes
    /// `Absent` all the same is stopped by a panic with a fixed message.
    #[verifier::when_used_as_spec(spec_unwrap)]
    pub fn unwrap(self) -> (t: T)
        requires
            self is Present,
        ensures
            self == MyOption::Present(t),
    {
        match self {
            MyOption::Present(t) => t,
            // Ruled out by the precondition.
            MyOption::Absent => Option::<T>::None.expect(
                "called `MyOption::unwrap()` on an `Absent` value",
            ),
        }
    }

    /// The value held, or `default` where there is none.
    pub open spec fn spec_unwrap_or(self, default: T) -> T {
        match self {
            MyOption::Present(t) => t,
            MyOption::Absent => default,
        }
    }

    /// Returns the value held, ignoring `default`; or `default` when `self`
    /// is absent.
    #[verifier::when_used_as_spec(spec_unwrap_or)]
    pub fn unwrap_or(self, default: T) -> (t: T)
        ensures
            t == self.spec_unwrap_or(default),
    {
        match self {
            MyOption::Present(val) => val,
            MyOption::Absent => default,
        }
    }

    /// Returns the value held, or what `f` computes when there is none. `f`
    /// has to be callable only when `self` is absent, and is called only
    /// then.
    pub fn unwrap_or_else<F>(self, f: F) -> (r: T) where F: FnOnce() -> T
        requires
            self is Absent ==> f.requires(()),
        ensures
            match self {
                MyOption::Present(t) => r == t,
                MyOption::Absent => f.ensures((), r),
            },
    {
        match self {
            MyOption::Present(val) => val,
            MyOption::Absent => f(),
        }
    }

    /// `Ok` of the value held, or `Err(err)` where there is none.
    pub open spec fn spec_ok_or<E>(self, err: E) -> Result<T, E> {
        match self {
            MyOption::Present(t) => Ok(t),
            MyOption::Absent => Err(err),
        }
    }

    /// Turns a present value into `Ok` of it, and absence into `Err(err)`.
    #[verifier::when_used_as_spec(spec_ok_or)]
    pub fn ok_or<E>(self, err: E) -> (r: Result<T, E>)
        ensures
            r == self.spec_ok_or(err),
    {
        match self {
            MyOption::Present(val) => Ok(val),
            MyOption::Absent => Err(err),
        }
    }

    /// Turns a present value into `Ok` of it, and absence into `Err` of what
    /// `f` computes. `f` has to be callable only when `self` is absent, and
    /// is called only then.
    pub fn ok_or_else<E, F>(self, f: F) -> (r: Result<T, E>) where F: FnOnce() -> E
        requires
            self is Absent ==> f.requires(()),
        ensures
            match self {
                MyOption::Present(t) => r == Ok::<T, E>(t),
                MyOption::Absent => r matches Err(e) && f.ensures((), e),
            },
    {
        match self {
            MyOption::Present(val) => Ok(val),
            MyOption::Absent => Err(f()),
        }
    }

    /// `optb` if `self` is present, else absent.
    pub open spec fn spec_and<U>(self, optb: MyOption<U>) -> MyOption<U> {
        if self is Present {
            optb
        } else {
            MyOption::Absent
        }
    }

    /// Returns `optb` when `self` is present, and `Absent` otherwise.
    #[verifier::when_used_as_spec(spec_and)]
    pub fn and<U>(self, optb: MyOption<U>) -> (r: MyOption<U>)
        ensures
            r == self.spec_and(optb),
    {
        match self {
            MyOption::Present(_) => optb,
            MyOption::Absent => MyOption::Absent,
        }
    }

    /// What chaining gives for a pure function `f`: `f` of the value held, or
    /// absence where there is none.
    pub open spec fn spec_and_then<U>(self, f: spec_fn(T) -> MyOption<U>) -> MyOption<U> {
        match self {
            MyOption::Present(t) => f(t),
            MyOption::Absent => MyOption::Absent,
        }
    }

    /// Hands the value held to `f` and returns what `f` returns; absence
    /// short-circuits, and `f` is then not called.
    pub fn and_then<U, F>(self, f: F) -> (r: MyOption<U>) where F: FnOnce(T) -> MyOption<U>
        requires
            self matches MyOption::Present(t) ==> f.requires((t,)),
        ensures
            and_then_gives(self, f, r),
    {
        match self {
            MyOption::Present(val) => f(val),
            MyOption::Absent => MyOption::Absent,
        }
    }

    /// Keeps a present value on which `predicate` returns `true`; the result
    /// is absent when `self` is, or when `predicate` returns `false`.
    pub fn filter<P>(self, predicate: P) -> (r: MyOption<T>) where P: FnOnce(&T) -> bool
        requires
            self matches MyOption::Present(t) ==> predicate.requires((&t,)),
        ensures
            match self {
                MyOption::Present(t) => {
                    ||| r == self && predicate.ensures((&t,), true)
                    ||| r is Absent && predicate.ensures((&t,), false)
                },
                MyOption::Absent => r is Absent,
            },
    {
        match self {
            MyOption::Present(t) => {
                if predicate(&t) {
                    MyOption::Present(t)
                } else {
                    MyOption::Absent
                }
            },
            MyOption::Absent => MyOption::Absent,
        }
    }

    /// `self` if it is present, else `optb`.
    pub open spec fn spec_or(self, optb: MyOption<T>) -> MyOption<T> {
        if self is Present {
            self
        } else {
            optb
        }
    }

    /// Returns `self` when it is present, and `optb` otherwise.
    #[verifier::when_used_as_spec(spec_or)]
    pub fn or(self, optb: MyOption<T>) -> (r: MyOption<T>)
        ensures
            r == self.spec_or(optb),
    {
        match self {
            MyOption::Present(_) => self,
            MyOption::Absent => optb,
        }
    }

    /// Returns `self` when it is present, and what `f` computes otherwise.
    /// `f` has to be callable only when `self` is absent, and is called only
    /// then.
    pub fn or_else<F>(self, f: F) -> (r: MyOption<T>) where F: FnOnce() -> MyOption<T>
        requires
            self is Absent ==> f.requires(()),
        ensures
            match self {
                MyOption::Present(_) => r == self,
                MyOption::Absent => f.ensures((), r),
            },
    {
        match self {
            MyOption::Present(_) => self,
            MyOption::Absent => f(),
        }
    }

    /// The value that is present in exactly one of `self` and `optb`, if
    /// there is such a value.
    pub open spec fn spec_xor(self, optb: MyOption<T>) -> MyOption<T> {
        if self is Present && optb is Absent {
            self
        } else if self is Absent && optb is Present {
            optb
        } else {
            MyOption::Absent
        }
    }

    /// Returns the value of whichever side is present when exactly one of
    /// them is, and `Absent` when both or neither are.
    #[verifier::when_used_as_spec(spec_xor)]
    pub fn xor(self, optb: MyOption<T>) -> (r: MyOption<T>)
        ensures
            r == self.spec_xor(optb),
            r is Present <==> (self is Present) != (optb is Present),
    {
        match (self, optb) {
            (MyOption::Present(a), MyOption::Absent) => MyOption::Present(a),
            (MyOption::Absent, MyOption::Present(b)) => MyOption::Present(b),
            _ => MyOption::Absent,
        }
    }
}

/// `r` is a value that `x.and_then(f)` may return: absent when `x` is, and
/// otherwise one of the results of `f` on the value held.
pub open spec fn and_then_gives<T, U, F: FnOnce(T) -> MyOption<U>>(
    x: MyOption<T>,
    f: F,
    r: MyOption<U>,
) -> bool {
    match x {
        MyOption::Present(t) => f.ensures((t,), r),
        MyOption::Absent => r is Absent,
    }
}

} // verus!
