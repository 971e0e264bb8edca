//! The state of several effects that are applied together.

use vstd::prelude::*;

verus! {

/// The states of several effects, side by side.
///
/// A tuple of effects is applied to a `ParamSet` of their states: the effect at position
/// `i` changes the part at position `i` and no other. The part at a position is handed
/// out by the method named after it, `p0` to `p7`.
#[derive(Clone, Copy, Debug, Default, PartialEq, Eq)]
pub struct ParamSet<T>(pub T);

impl<S0> ParamSet<(S0,)> {
    /// Hands out the only part.
    pub fn p0(&mut self) -> (part: &mut S0)
        ensures
            *part == old(self).0.0,
            final(self).0.0 == *final(part),
    {
        &mut self.0.0
    }
}

impl<S0, S1> ParamSet<(S0, S1)> {
    /// Hands out the first part. The other parts stay as they are.
    pub fn p0(&mut self) -> (part: &mut S0)
        ensures
            *part == old(self).0.0,
            final(self).0.0 == *final(part),
            final(self).0.1 == old(self).0.1,
    {
        &mut self.0.0
    }

    /// Hands out the second part. The other parts stay as they are.
    pub fn p1(&mut self) -> (part: &mut S1)
        ensures
            *part == old(self).0.1,
            final(self).0.1 == *final(part),
            final(self).0.0 == old(self).0.0,
    {
        &mut self.0.1
    }
}

impl<S0, S1, S2> ParamSet<(S0, S1, S2)> {
    /// Hands out the first part. The other parts stay as they are.
    pub fn p0(&mut self) -> (part: &mut S0)
        ensures
            *part == old(self).0.0,
            final(self).0.0 == *final(part),
            final(self).0.1 == old(self).0.1,
            final(self).0.2 == old(self).0.2,
    {
        &mut self.0.0
    }

    /// Hands out the second part. The other parts stay as they are.
    pub fn p1(&mut self) -> (part: &mut S1)
        ensures
            *part == old(self).0.1,
            final(self).0.1 == *final(part),
            final(self).0.0 == old(self).0.0,
            final(self).0.2 == old(self).0.2,
    {
        &mut self.0.1
    }

    /// Hands out the third part. The other parts stay as they are.
    pub fn p2(&mut self) -> (part: &mut S2)
        ensures
            *part == old(self).0.2,
            final(self).0.2 == *final(part),
            final(self).0.0 == old(self).0.0,
            final(self).0.1 == old(self).0.1,
    {
        &mut self.0.2
    }
}

impl<S0, S1, S2, S3> ParamSet<(S0, S1, S2, S3)> {
    /// Hands out the first part. The other parts stay as they are.
    pub fn p0(&mut self) -> (part: &mut S0)
        ensures
            *part == old(self).0.0,
            final(self).0.0 == *final(part),
            final(self).0.1 == old(self).0.1,
            final(self).0.2 == old(self).0.2,
            final(self).0.3 == old(self).0.3,
    {
        &mut self.0.0
    }

    /// Hands out the second part. The other parts stay as they are.
    pub fn p1(&mut self) -> (part: &mut S1)
        ensures
            *part == old(self).0.1,
            final(self).0.1 == *final(part),
            final(self).0.0 == old(self).0.0,
            final(self).0.2 == old(self).0.2,
            final(self).0.3 == old(self).0.3,
    {
        &mut self.0.1
    }

    /// Hands out the third part. The other parts stay as they are.
    pub fn p2(&mut self) -> (part: &mut S2)
        ensures
            *part == old(self).0.2,
            final(self).0.2 == *final(part),
            final(self).0.0 == old(self).0.0,
            final(self).0.1 == old(self).0.1,
            final(self).0.3 == old(self).0.3,
    {
        &mut self.0.2
    }

    /// Hands out the fourth part. The other parts stay as they are.
    pub fn p3(&mut self) -> (part: &mut S3)
        ensures
            *part == old(self).0.3,
            final(self).0.3 == *final(part),
            final(self).0.0 == old(self).0.0,
            final(self).0.1 == old(self).0.1,
            final(self).0.2 == old(self).0.2,
    {
        &mut self.0.3
    }
}

impl<S0, S1, S2, S3, S4> ParamSet<(S0, S1, S2, S3, S4)> {
    /// Hands out the first part. The other parts stay as they are.
    pub fn p0(&mut self) -> (part: &mut S0)
        ensures
            *part == old(self).0.0,
            final(self).0.0 == *final(part),
            final(self).0.1 == old(self).0.1,
            final(self).0.2 == old(self).0.2,
            final(self).0.3 == old(self).0.3,
            final(self).0.4 == old(self).0.4,
    {
        &mut self.0.0
    }

    /// Hands out the second part. The other parts stay as they are.
    pub fn p1(&mut self) -> (part: &mut S1)
        ensures
            *part == old(self).0.1,
            final(self).0.1 == *final(part),
            final(self).0.0 == old(self).0.0,
            final(self).0.2 == old(self).0.2,
            final(self).0.3 == old(self).0.3,
            final(self).0.4 == old(self).0.4,
    {
        &mut self.0.1
    }

    /// Hands out the third part. The other parts stay as they are.
    pub fn p2(&mut self) -> (part: &mut S2)
        ensures
            *part == old(self).0.2,
            final(self).0.2 == *final(part),
            final(self).0.0 == old(self).0.0,
            final(self).0.1 == old(self).0.1,
            final(self).0.3 == old(self).0.3,
            final(self).0.4 == old(self).0.4,
    {
        &mut self.0.2
    }

    /// Hands out the fourth part. The other parts stay as they are.
    pub fn p3(&mut self) -> (part: &mut S3)
        ensures
            *part == old(self).0.3,
            final(self).0.3 == *final(part),
            final(self).0.0 == old(self).0.0,
            final(self).0.1 == old(self).0.1,
            final(self).0.2 == old(self).0.2,
            final(self).0.4 == old(self).0.4,
    {
        &mut self.0.3
    }

    /// Hands out the fifth part. The other parts stay as they are.
    pub fn p4(&mut self) -> (part: &mut S4)
        ensures
            *part == old(self).0.4,
            final(self).0.4 == *final(part),
            final(self).0.0 == old(self).0.0,
            final(self).0.1 == old(self).0.1,
            final(self).0.2 == old(self).0.2,
            final(self).0.3 == old(self).0.3,
    {
        &mut self.0.4
    }
}

impl<S0, S1, S2, S3, S4, S5> ParamSet<(S0, S1, S2, S3, S4, S5)> {
    /// Hands out the first part. The other parts stay as they are.
    pub fn p0(&mut self) -> (part: &mut S0)
        ensures
            *part == old(self).0.0,
            final(self).0.0 == *final(part),
            final(self).0.1 == old(self).0.1,
            final(self).0.2 == old(self).0.2,
            final(self).0.3 == old(self).0.3,
            final(self).0.4 == old(self).0.4,
            final(self).0.5 == old(self).0.5,
    {
        &mut self.0.0
    }

    /// Hands out the second part. The other parts stay as they are.
    pub fn p1(&mut self) -> (part: &mut S1)
        ensures
            *part == old(self).0.1,
            final(self).0.1 == *final(part),
            final(self).0.0 == old(self).0.0,
            final(self).0.2 == old(self).0.2,
            final(self).0.3 == old(self).0.3,
            final(self).0.4 == old(self).0.4,
            final(self).0.5 == old(self).0.5,
    {
        &mut self.0.1
    }

    /// Hands out the third part. The other parts stay as they are.
    pub fn p2(&mut self) -> (part: &mut S2)
        ensures
            *part == old(self).0.2,
            final(self).0.2 == *final(part),
            final(self).0.0 == old(self).0.0,
            final(self).0.1 == old(self).0.1,
            final(self).0.3 == old(self).0.3,
            final(self).0.4 == old(self).0.4,
            final(self).0.5 == old(self).0.5,
    {
        &mut self.0.2
    }

    /// Hands out the fourth part. The other parts stay as they are.
    pub fn p3(&mut self) -> (part: &mut S3)
        ensures
            *part == old(self).0.3,
            final(self).0.3 == *final(part),
            final(self).0.0 == old(self).0.0,
            final(self).0.1 == old(self).0.1,
            final(self).0.2 == old(self).0.2,
            final(self).0.4 == old(self).0.4,
            final(self).0.5 == old(self).0.5,
    {
        &mut self.0.3
    }

    /// Hands out the fifth part. The other parts stay as they are.
    pub fn p4(&mut self) -> (part: &mut S4)
        ensures
            *part == old(self).0.4,
            final(self).0.4 == *final(part),
            final(self).0.0 == old(self).0.0,
            final(self).0.1 == old(self).0.1,
            final(self).0.2 == old(self).0.2,
            final(self).0.3 == old(self).0.3,
            final(self).0.5 == old(self).0.5,
    {
        &mut self.0.4
    }

    /// Hands out the sixth part. The other parts stay as they are.
    pub fn p5(&mut self) -> (part: &mut S5)
        ensures
            *part == old(self).0.5,
            final(self).0.5 == *final(part),
            final(self).0.0 == old(self).0.0,
            final(self).0.1 == old(self).0.1,
            final(self).0.2 == old(self).0.2,
            final(self).0.3 == old(self).0.3,
            final(self).0.4 == old(self).0.4,
    {
        &mut self.0.5
    }
}

impl<S0, S1, S2, S3, S4, S5, S6> ParamSet<(S0, S1, S2, S3, S4, S5, S6)> {
    /// Hands out the first part. The other parts stay as they are.
    pub fn p0(&mut self) -> (part: &mut S0)
        ensures
            *part == old(self).0.0,
            final(self).0.0 == *final(part),
            final(self).0.1 == old(self).0.1,
            final(self).0.2 == old(self).0.2,
            final(self).0.3 == old(self).0.3,
            final(self).0.4 == old(self).0.4,
            final(self).0.5 == old(self).0.5,
            final(self).0.6 == old(self).0.6,
    {
        &mut self.0.0
    }

    /// Hands out the second part. The other parts stay as they are.
    pub fn p1(&mut self) -> (part: &mut S1)
        ensures
            *part == old(self).0.1,
            final(self).0.1 == *final(part),
            final(self).0.0 == old(self).0.0,
            final(self).0.2 == old(self).0.2,
            final(self).0.3 == old(self).0.3,
            final(self).0.4 == old(self).0.4,
            final(self).0.5 == old(self).0.5,
            final(self).0.6 == old(self).0.6,
    {
        &mut self.0.1
    }

    /// Hands out the third part. The other parts stay as they are.
    pub fn p2(&mut self) -> (part: &mut S2)
        ensures
            *part == old(self).0.2,
            final(self).0.2 == *final(part),
            final(self).0.0 == old(self).0.0,
            final(self).0.1 == old(self).0.1,
            final(self).0.3 == old(self).0.3,
            final(self).0.4 == old(self).0.4,
            final(self).0.5 == old(self).0.5,
            final(self).0.6 == old(self).0.6,
    {
        &mut self.0.2
    }

    /// Hands out the fourth part. The other parts stay as they are.
    pub fn p3(&mut self) -> (part: &mut S3)
        ensures
            *part == old(self).0.3,
            final(self).0.3 == *final(part),
            final(self).0.0 == old(self).0.0,
            final(self).0.1 == old(self).0.1,
            final(self).0.2 == old(self).0.2,
            final(self).0.4 == old(self).0.4,
            final(self).0.5 == old(self).0.5,
            final(self).0.6 == old(self).0.6,
    {
        &mut self.0.3
    }

    /// Hands out the fifth part. The other parts stay as they are.
    pub fn p4(&mut self) -> (part: &mut S4)
        ensures
            *part == old(self).0.4,
            final(self).0.4 == *final(part),
            final(self).0.0 == old(self).0.0,
            final(self).0.1 == old(self).0.1,
            final(self).0.2 == old(self).0.2,
            final(self).0.3 == old(self).0.3,
            final(self).0.5 == old(self).0.5,
            final(self).0.6 == old(self).0.6,
    {
        &mut self.0.4
    }

    /// Hands out the sixth part. The other parts stay as they are.
    pub fn p5(&mut self) -> (part: &mut S5)
        ensures
            *part == old(self).0.5,
            final(self).0.5 == *final(part),
            final(self).0.0 == old(self).0.0,
            final(self).0.1 == old(self).0.1,
            final(self).0.2 == old(self).0.2,
            final(self).0.3 == old(self).0.3,
            final(self).0.4 == old(self).0.4,
            final(self).0.6 == old(self).0.6,
    {
        &mut self.0.5
    }

    /// Hands out the seventh part. The other parts stay as they are.
    pub fn p6(&mut self) -> (part: &mut S6)
        ensures
            *part == old(self).0.6,
            final(self).0.6 == *final(part),
            final(self).0.0 == old(self).0.0,
            final(self).0.1 == old(self).0.1,
            final(self).0.2 == old(self).0.2,
            final(self).0.3 == old(self).0.3,
            final(self).0.4 == old(self).0.4,
            final(self).0.5 == old(self).0.5,
    {
        &mut self.0.6
    }
}

impl<S0, S1, S2, S3, S4, S5, S6, S7> ParamSet<(S0, S1, S2, S3, S4, S5, S6, S7)> {
    /// Hands out the first part. The other parts stay as they are.
    pub fn p0(&mut self) -> (part: &mut S0)
        ensures
            *part == old(self).0.0,
            final(self).0.0 == *final(part),
            final(self).0.1 == old(self).0.1,
            final(self).0.2 == old(self).0.2,
            final(self).0.3 == old(self).0.3,
            final(self).0.4 == old(self).0.4,
            final(self).0.5 == old(self).0.5,
            final(self).0.6 == old(self).0.6,
            final(self).0.7 == old(self).0.7,
    {
        &mut self.0.0
    }

    /// Hands out the second part. The other parts stay as they are.
    pub fn p1(&mut self) -> (part: &mut S1)
        ensures
            *part == old(self).0.1,
            final(self).0.1 == *final(part),
            final(self).0.0 == old(self).0.0,
            final(self).0.2 == old(self).0.2,
            final(self).0.3 == old(self).0.3,
            final(self).0.4 == old(self).0.4,
            final(self).0.5 == old(self).0.5,
            final(self).0.6 == old(self).0.6,
            final(self).0.7 == old(self).0.7,
    {
        &mut self.0.1
    }

    /// Hands out the third part. The other parts stay as they are.
    pub fn p2(&mut self) -> (part: &mut S2)
        ensures
            *part == old(self).0.2,
            final(self).0.2 == *final(part),
            final(self).0.0 == old(self).0.0,
            final(self).0.1 == old(self).0.1,
            final(self).0.3 == old(self).0.3,
            final(self).0.4 == old(self).0.4,
            final(self).0.5 == old(self).0.5,
            final(self).0.6 == old(self).0.6,
            final(self).0.7 == old(self).0.7,
    {
        &mut self.0.2
    }

    /// Hands out the fourth part. The other parts stay as they are.
    pub fn p3(&mut self) -> (part: &mut S3)
        ensures
            *part == old(self).0.3,
            final(self).0.3 == *final(part),
            final(self).0.0 == old(self).0.0,
            final(self).0.1 == old(self).0.1,
            final(self).0.2 == old(self).0.2,
            final(self).0.4 == old(self).0.4,
            final(self).0.5 == old(self).0.5,
            final(self).0.6 == old(self).0.6,
            final(self).0.7 == old(self).0.7,
    {
        &mut self.0.3
    }

    /// Hands out the fifth part. The other parts stay as they are.
    pub fn p4(&mut self) -> (part: &mut S4)
        ensures
            *part == old(self).0.4,
            final(self).0.4 == *final(part),
            final(self).0.0 == old(self).0.0,
            final(self).0.1 == old(self).0.1,
            final(self).0.2 == old(self).0.2,
            final(self).0.3 == old(self).0.3,
            final(self).0.5 == old(self).0.5,
            final(self).0.6 == old(self).0.6,
            final(self).0.7 == old(self).0.7,
    {
        &mut self.0.4
    }

    /// Hands out the sixth part. The other parts stay as they are.
    pub fn p5(&mut self) -> (part: &mut S5)
        ensures
            *part == old(self).0.5,
            final(self).0.5 == *final(part),
            final(self).0.0 == old(self).0.0,
            final(self).0.1 == old(self).0.1,
            final(self).0.2 == old(self).0.2,
            final(self).0.3 == old(self).0.3,
            final(self).0.4 == old(self).0.4,
            final(self).0.6 == old(self).0.6,
            final(self).0.7 == old(self).0.7,
    {
        &mut self.0.5
    }

    /// Hands out the seventh part. The other parts stay as they are.
    pub fn p6(&mut self) -> (part: &mut S6)
        ensures
            *part == old(self).0.6,
            final(self).0.6 == *final(part),
            final(self).0.0 == old(self).0.0,
            final(self).0.1 == old(self).0.1,
            final(self).0.2 == old(self).0.2,
            final(self).0.3 == old(self).0.3,
            final(self).0.4 == old(self).0.4,
            final(self).0.5 == old(self).0.5,
            final(self).0.7 == old(self).0.7,
    {
        &mut self.0.6
    }

    /// Hands out the eighth part. The other parts stay as they are.
    pub fn p7(&mut self) -> (part: &mut S7)
        ensures
            *part == old(self).0.7,
            final(self).0.7 == *final(part),
            final(self).0.0 == old(self).0.0,
            final(self).0.1 == old(self).0.1,
            final(self).0.2 == old(self).0.2,
            final(self).0.3 == old(self).0.3,
            final(self).0.4 == old(self).0.4,
            final(self).0.5 == old(self).0.5,
            final(self).0.6 == old(self).0.6,
    {
        &mut self.0.7
    }
}

} // verus!
