use vstd::prelude::*;

verus! {

/// Types implementing natural numbers.
///
/// A value is modelled by its magnitude, `magnitude()`, and each magnitude
/// has one value, `from_magnitude(n)`: the two lemmas below say that these
/// are inverse to each other, so equal magnitudes mean equal values.
pub trait Nat where Self: Sized + Clone {
    /// The magnitude that a value stands for.
    spec fn magnitude(&self) -> u32;

    /// The value that stands for the magnitude `n`.
    spec fn from_magnitude(n: u32) -> Self;

    /// The value for `n` has magnitude `n`.
    proof fn lemma_magnitude_of(n: u32)
        ensures
            Self::from_magnitude(n).magnitude() == n,
    ;

    /// Every value is the one that stands for its magnitude.
    proof fn lemma_from_magnitude_of(x: Self)
        ensures
            Self::from_magnitude(x.magnitude()) == x,
    ;

    /// Converts a value into the corresponding `u32`.
    fn value(&self) -> (r: u32)
        ensures
            r == self.magnitude(),
    ;

    /// Converts a `u32` into the corresponding value.
    fn wrap(n: u32) -> (r: Self)
        ensures
            r == Self::from_magnitude(n),
            r.magnitude() == n,
    ;

    /// The additive identity.
    fn zero() -> (r: Self)
        ensures
            r == Self::from_magnitude(0),
            r.magnitude() == 0,
    ;

    /// Whether the value is zero.
    fn is_zero(&self) -> (r: bool)
        ensures
            r == (self.magnitude() == 0),
    ;

    /// The successor of a value; the largest magnitude has none.
    fn succ(&self) -> (r: Self)
        requires
            self.magnitude() < u32::MAX,
        ensures
            r == Self::from_magnitude((self.magnitude() + 1) as u32),
            r.magnitude() == self.magnitude() + 1,
    ;

    /// The value of which this is a successor, or `None` if the value is zero.
    fn pred(&self) -> (r: Option<Self>)
        ensures
            self.magnitude() == 0 ==> r is None,
            self.magnitude() > 0 ==> r == Some(Self::from_magnitude((self.magnitude() - 1) as u32)),
    {
        match self.value() {
            0 => None,
            n => Some(Self::wrap(n - 1)),
        }
    }

    /// The sum of two values, by the successor recursion
    /// `a + 0 == a` and `a + succ(b) == succ(a + b)`, run as a loop.
    fn add(&self, n: &Self) -> (r: Self)
        requires
            self.magnitude() + n.magnitude() <= u32::MAX,
        ensures
            r == Self::from_magnitude((self.magnitude() + n.magnitude()) as u32),
            r.magnitude() == self.magnitude() + n.magnitude(),
    {
        let mut acc = Self::wrap(self.value());
        let mut rest = Self::wrap(n.value());
        loop
            invariant
                acc.magnitude() + rest.magnitude() == self.magnitude() + n.magnitude(),
                self.magnitude() + n.magnitude() <= u32::MAX,
            decreases rest.magnitude(),
        {
            match rest.pred() {
                None => {
                    proof {
                        Self::lemma_from_magnitude_of(acc);
                    }
                    return acc;
                },
                Some(m) => {
                    proof {
                        Self::lemma_magnitude_of((rest.magnitude() - 1) as u32);
                    }
                    acc = acc.succ();
                    rest = m;
                },
            }
        }
    }
}

} // verus!
