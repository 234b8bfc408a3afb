//! Laws that relate the combinators of [`MyOption`] to one another.

use crate::option::{and_then_gives, MyOption};
use vstd::prelude::*;

verus! {

/// Exactly one of `is_some` and `is_none` holds of any value: a present value
/// is some and not none, and the absent one is none and not some.
pub proof fn lemma_some_none_exclusive<T>(x: MyOption<T>, t: T)
    ensures
        x.is_some() != x.is_none(),
        MyOption::Present(t).is_some(),
        !MyOption::Present(t).is_none(),
        !MyOption::<T>::Absent.is_some(),
        MyOption::<T>::Absent.is_none(),
{
}

/// `unwrap_or` returns the value held and ignores the default; on absence it
/// returns the default.
pub proof fn lemma_unwrap_or<T>(v: T, default: T)
    ensures
        MyOption::Present(v).unwrap_or(default) == v,
        MyOption::<T>::Absent.unwrap_or(default) == default,
{
}

/// `xor` keeps the one value when exactly one side is present, and is absent
/// when both sides or neither are present.
pub proof fn lemma_xor_cases<T>(a: T, b: T)
    ensures
        MyOption::Present(a).xor(MyOption::Absent) == MyOption::Present(a),
        MyOption::Absent.xor(MyOption::Present(b)) == MyOption::Present(b),
        MyOption::Present(a).xor(MyOption::Present(b)) == MyOption::<T>::Absent,
        MyOption::<T>::Absent.xor(MyOption::Absent) == MyOption::<T>::Absent,
{
}

/// `r` is a value that `x.and_then(f).and_then(g)` may return: some value
/// `m` that the first call may return leads the second call to `r`.
pub open spec fn chain_gives<T, U, V, F, G>(x: MyOption<T>, f: F, g: G, r: MyOption<V>) -> bool where
    F: FnOnce(T) -> MyOption<U>,
    G: FnOnce(U) -> MyOption<V>,
{
    exists|m: MyOption<U>| and_then_gives(x, f, m) && #[trigger] and_then_gives(m, g, r)
}

/// Chaining is associative. Let `h` be the function that hands its argument
/// to `f` and chains `g` onto what comes back, so that `h` may return `o` on
/// `t` exactly when `f(t).and_then(g)` may. Then `x.and_then(h)` may return
/// `r` exactly when `x.and_then(f).and_then(g)` may.
pub proof fn lemma_and_then_associative<T, U, V, F, G, H>(
    x: MyOption<T>,
    f: F,
    g: G,
    h: H,
    r: MyOption<V>,
) where F: FnOnce(T) -> MyOption<U>, G: FnOnce(U) -> MyOption<V>, H: FnOnce(T) -> MyOption<V>
    requires
        forall|t: T, o: MyOption<V>| #[trigger]
            h.ensures((t,), o) <==> chain_gives(MyOption::Present(t), f, g, o),
    ensures
        and_then_gives(x, h, r) <==> chain_gives(x, f, g, r),
{
    if x is Absent && r is Absent {
        let m = MyOption::<U>::Absent;
        assert(and_then_gives(x, f, m) && and_then_gives(m, g, r));
    }
}

/// One half of associativity, for a function `h` of which only an upper
/// bound is known: if whatever `h` returns on `t` is something that
/// `f(t).and_then(g)` may return, then whatever `x.and_then(h)` returns is
/// something that `x.and_then(f).and_then(g)` may return.
pub proof fn lemma_and_then_nested_within_chain<T, U, V, F, G, H>(
    x: MyOption<T>,
    f: F,
    g: G,
    h: H,
    r: MyOption<V>,
) where F: FnOnce(T) -> MyOption<U>, G: FnOnce(U) -> MyOption<V>, H: FnOnce(T) -> MyOption<V>
    requires
        forall|t: T, o: MyOption<V>| #[trigger]
            h.ensures((t,), o) ==> chain_gives(MyOption::Present(t), f, g, o),
        and_then_gives(x, h, r),
    ensures
        chain_gives(x, f, g, r),
{
    if x is Absent {
        let m = MyOption::<U>::Absent;
        assert(and_then_gives(x, f, m) && and_then_gives(m, g, r));
    }
}

/// When `f` can only return what the pure function `sf` gives, the one value
/// that `x.and_then(f)` may return is `x.spec_and_then(sf)`.
pub proof fn lemma_and_then_of_function<T, U, F>(
    x: MyOption<T>,
    f: F,
    sf: spec_fn(T) -> MyOption<U>,
    r: MyOption<U>,
) where F: FnOnce(T) -> MyOption<U>
    requires
        forall|t: T, o: MyOption<U>| #[trigger] f.ensures((t,), o) ==> o == sf(t),
        and_then_gives(x, f, r),
    ensures
        r == x.spec_and_then(sf),
{
}

/// Chaining pure functions is associative: chaining `f` and then `g` onto `x`
/// gives what chaining onto `x` the function that applies `f` and chains `g`
/// gives.
pub proof fn lemma_spec_and_then_associative<T, U, V>(
    x: MyOption<T>,
    f: spec_fn(T) -> MyOption<U>,
    g: spec_fn(U) -> MyOption<V>,
)
    ensures
        x.spec_and_then(f).spec_and_then(g) == x.spec_and_then(|t: T| f(t).spec_and_then(g)),
{
}

} // verus!
