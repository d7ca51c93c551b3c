use vstd::prelude::*;

use crate::peano::Nat;

verus! {

/// Wrapping a magnitude and reading it back gives the same magnitude.
pub proof fn lemma_value_of_wrap<T: Nat>(n: u32)
    ensures
        T::from_magnitude(n).magnitude() == n,
{
    T::lemma_magnitude_of(n);
}

/// Zero is zero, and the wrapped magnitude `n` is zero exactly when `n` is 0.
pub proof fn lemma_is_zero_of_wrap<T: Nat>(n: u32)
    ensures
        T::from_magnitude(0).magnitude() == 0,
        (T::from_magnitude(n).magnitude() == 0) == (n == 0),
{
    T::lemma_magnitude_of(0);
    T::lemma_magnitude_of(n);
}

/// The successor's magnitude is one more than the value's.
pub proof fn lemma_value_of_succ<T: Nat>(v: T)
    requires
        v.magnitude() < u32::MAX,
    ensures
        T::from_magnitude((v.magnitude() + 1) as u32).magnitude() == v.magnitude() + 1,
{
    T::lemma_magnitude_of((v.magnitude() + 1) as u32);
}

/// The predecessor undoes the successor, and zero has none: the successor of
/// the wrapped `n - 1` is positive and the value one less than it is the
/// wrapped `n - 1`.
pub proof fn lemma_pred_of_succ<T: Nat>(n: u32)
    requires
        n > 0,
    ensures
        T::from_magnitude(0).magnitude() == 0,
        ({
            let w = T::from_magnitude((n - 1) as u32);
            let s = T::from_magnitude((w.magnitude() + 1) as u32);
            s.magnitude() > 0 && T::from_magnitude((s.magnitude() - 1) as u32) == w
        }),
{
    T::lemma_magnitude_of(0);
    T::lemma_magnitude_of((n - 1) as u32);
    T::lemma_magnitude_of(n);
}

/// The sum's magnitude is the sum of the magnitudes.
pub proof fn lemma_value_of_add<T: Nat>(a: T, b: T)
    requires
        a.magnitude() + b.magnitude() <= u32::MAX,
    ensures
        T::from_magnitude((a.magnitude() + b.magnitude()) as u32).magnitude() == a.magnitude()
            + b.magnitude(),
{
    T::lemma_magnitude_of((a.magnitude() + b.magnitude()) as u32);
}

/// Zero is a right identity of addition.
pub proof fn lemma_add_zero<T: Nat>(a: T)
    ensures
        T::from_magnitude((a.magnitude() + T::from_magnitude(0).magnitude()) as u32) == a,
{
    T::lemma_magnitude_of(0);
    T::lemma_from_magnitude_of(a);
}

/// Addition is commutative.
pub proof fn lemma_add_commutative<T: Nat>(a: T, b: T)
    ensures
        T::from_magnitude((a.magnitude() + b.magnitude()) as u32) == T::from_magnitude(
            (b.magnitude() + a.magnitude()) as u32,
        ),
{
}

/// Addition is associative where the total is representable.
pub proof fn lemma_add_associative<T: Nat>(a: T, b: T, c: T)
    requires
        a.magnitude() + b.magnitude() + c.magnitude() <= u32::MAX,
    ensures
        ({
            let ab = T::from_magnitude((a.magnitude() + b.magnitude()) as u32);
            let bc = T::from_magnitude((b.magnitude() + c.magnitude()) as u32);
            T::from_magnitude((ab.magnitude() + c.magnitude()) as u32) == T::from_magnitude(
                (a.magnitude() + bc.magnitude()) as u32,
            )
        }),
{
    T::lemma_magnitude_of((a.magnitude() + b.magnitude()) as u32);
    T::lemma_magnitude_of((b.magnitude() + c.magnitude()) as u32);
}

} // verus!
