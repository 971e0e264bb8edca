//! Effects made of other effects: tuples of up to eight effects, and a choice of two.

use either::Either;
use vstd::prelude::*;

use crate::effect::Effect;
use crate::param_set::ParamSet;

verus! {

/// The enum `Either` of the crate `either`: a value of the left type in `Left`, or a value
/// of the right type in `Right`. Its variants are read from that crate's declaration.
#[verifier::external_type_specification]
#[verifier::reject_recursive_types(L)]
#[verifier::reject_recursive_types(R)]
pub struct ExEither<L, R>(Either<L, R>);

/// The effect that changes nothing.
impl Effect for () {
    type MutParam = ();

    open spec fn applies_to(self, param: ()) -> bool {
        true
    }

    open spec fn affects(self, before: (), after: ()) -> bool {
        after == before
    }

    fn affect(self, _param: &mut ()) {
    }
}

/// One effect in a tuple: it is applied to the only part of the set.
impl<E0: Effect> Effect for (E0,) {
    type MutParam = ParamSet<(E0::MutParam,)>;

    open spec fn applies_to(self, param: Self::MutParam) -> bool {
        &&& self.0.applies_to(param.0.0)
    }

    open spec fn affects(self, before: Self::MutParam, after: Self::MutParam) -> bool {
        &&& self.0.affects(before.0.0, after.0.0)
    }

    fn affect(self, param: &mut Self::MutParam) {
        let (e0,) = self;
        e0.affect(param.p0());
    }
}

/// Two effects in a tuple: they are applied from left to right, each to its own part.
impl<E0: Effect, E1: Effect> Effect for (E0, E1) {
    type MutParam = ParamSet<(E0::MutParam, E1::MutParam)>;

    open spec fn applies_to(self, param: Self::MutParam) -> bool {
        &&& self.0.applies_to(param.0.0)
        &&& self.1.applies_to(param.0.1)
    }

    open spec fn affects(self, before: Self::MutParam, after: Self::MutParam) -> bool {
        &&& self.0.affects(before.0.0, after.0.0)
        &&& self.1.affects(before.0.1, after.0.1)
    }

    fn affect(self, param: &mut Self::MutParam) {
        let (e0, e1) = self;
        e0.affect(param.p0());
        e1.affect(param.p1());
    }
}

/// Three effects in a tuple: they are applied from left to right, each to its own part.
impl<E0: Effect, E1: Effect, E2: Effect> Effect for (E0, E1, E2) {
    type MutParam = ParamSet<(E0::MutParam, E1::MutParam, E2::MutParam)>;

    open spec fn applies_to(self, param: Self::MutParam) -> bool {
        &&& self.0.applies_to(param.0.0)
        &&& self.1.applies_to(param.0.1)
        &&& self.2.applies_to(param.0.2)
    }

    open spec fn affects(self, before: Self::MutParam, after: Self::MutParam) -> bool {
        &&& self.0.affects(before.0.0, after.0.0)
        &&& self.1.affects(before.0.1, after.0.1)
        &&& self.2.affects(before.0.2, after.0.2)
    }

    fn affect(self, param: &mut Self::MutParam) {
        let (e0, e1, e2) = self;
        e0.affect(param.p0());
        e1.affect(param.p1());
        e2.affect(param.p2());
    }
}

/// Four effects in a tuple: they are applied from left to right, each to its own part.
impl<E0: Effect, E1: Effect, E2: Effect, E3: Effect> Effect for (E0, E1, E2, E3) {
    type MutParam = ParamSet<(E0::MutParam, E1::MutParam, E2::MutParam, E3::MutParam)>;

    open spec fn applies_to(self, param: Self::MutParam) -> bool {
        &&& self.0.applies_to(param.0.0)
        &&& self.1.applies_to(param.0.1)
        &&& self.2.applies_to(param.0.2)
        &&& self.3.applies_to(param.0.3)
    }

    open spec fn affects(self, before: Self::MutParam, after: Self::MutParam) -> bool {
        &&& self.0.affects(before.0.0, after.0.0)
        &&& self.1.affects(before.0.1, after.0.1)
        &&& self.2.affects(before.0.2, after.0.2)
        &&& self.3.affects(before.0.3, after.0.3)
    }

    fn affect(self, param: &mut Self::MutParam) {
        let (e0, e1, e2, e3) = self;
        e0.affect(param.p0());
        e1.affect(param.p1());
        e2.affect(param.p2());
        e3.affect(param.p3());
    }
}

/// Five effects in a tuple: they are applied from left to right, each to its own part.
impl<E0: Effect, E1: Effect, E2: Effect, E3: Effect, E4: Effect> Effect for (E0, E1, E2, E3, E4) {
    type MutParam = ParamSet<(E0::MutParam, E1::MutParam, E2::MutParam, E3::MutParam, E4::MutParam)>;

    open spec fn applies_to(self, param: Self::MutParam) -> bool {
        &&& self.0.applies_to(param.0.0)
        &&& self.1.applies_to(param.0.1)
        &&& self.2.applies_to(param.0.2)
        &&& self.3.applies_to(param.0.3)
        &&& self.4.applies_to(param.0.4)
    }

    open spec fn affects(self, before: Self::MutParam, after: Self::MutParam) -> bool {
        &&& self.0.affects(before.0.0, after.0.0)
        &&& self.1.affects(before.0.1, after.0.1)
        &&& self.2.affects(before.0.2, after.0.2)
        &&& self.3.affects(before.0.3, after.0.3)
        &&& self.4.affects(before.0.4, after.0.4)
    }

    fn affect(self, param: &mut Self::MutParam) {
        let (e0, e1, e2, e3, e4) = self;
        e0.affect(param.p0());
        e1.affect(param.p1());
        e2.affect(param.p2());
        e3.affect(param.p3());
        e4.affect(param.p4());
    }
}

/// Six effects in a tuple: they are applied from left to right, each to its own part.
impl<E0: Effect, E1: Effect, E2: Effect, E3: Effect, E4: Effect, E5: Effect> Effect for (E0, E1, E2, E3, E4, E5) {
    type MutParam = ParamSet<(E0::MutParam, E1::MutParam, E2::MutParam, E3::MutParam, E4::MutParam, E5::MutParam)>;

    open spec fn applies_to(self, param: Self::MutParam) -> bool {
        &&& self.0.applies_to(param.0.0)
        &&& self.1.applies_to(param.0.1)
        &&& self.2.applies_to(param.0.2)
        &&& self.3.applies_to(param.0.3)
        &&& self.4.applies_to(param.0.4)
        &&& self.5.applies_to(param.0.5)
    }

    open spec fn affects(self, before: Self::MutParam, after: Self::MutParam) -> bool {
        &&& self.0.affects(before.0.0, after.0.0)
        &&& self.1.affects(before.0.1, after.0.1)
        &&& self.2.affects(before.0.2, after.0.2)
        &&& self.3.affects(before.0.3, after.0.3)
        &&& self.4.affects(before.0.4, after.0.4)
        &&& self.5.affects(before.0.5, after.0.5)
    }

    fn affect(self, param: &mut Self::MutParam) {
        let (e0, e1, e2, e3, e4, e5) = self;
        e0.affect(param.p0());
        e1.affect(param.p1());
        e2.affect(param.p2());
        e3.affect(param.p3());
        e4.affect(param.p4());
        e5.affect(param.p5());
    }
}

/// Seven effects in a tuple: they are applied from left to right, each to its own part.
impl<E0: Effect, E1: Effect, E2: Effect, E3: Effect, E4: Effect, E5: Effect, E6: Effect> Effect for (E0, E1, E2, E3, E4, E5, E6) {
    type MutParam = ParamSet<(E0::MutParam, E1::MutParam, E2::MutParam, E3::MutParam, E4::MutParam, E5::MutParam, E6::MutParam)>;

    open spec fn applies_to(self, param: Self::MutParam) -> bool {
        &&& self.0.applies_to(param.0.0)
        &&& self.1.applies_to(param.0.1)
        &&& self.2.applies_to(param.0.2)
        &&& self.3.applies_to(param.0.3)
        &&& self.4.applies_to(param.0.4)
        &&& self.5.applies_to(param.0.5)
        &&& self.6.applies_to(param.0.6)
    }

    open spec fn affects(self, before: Self::MutParam, after: Self::MutParam) -> bool {
        &&& self.0.affects(before.0.0, after.0.0)
        &&& self.1.affects(before.0.1, after.0.1)
        &&& self.2.affects(before.0.2, after.0.2)
        &&& self.3.affects(before.0.3, after.0.3)
        &&& self.4.affects(before.0.4, after.0.4)
        &&& self.5.affects(before.0.5, after.0.5)
        &&& self.6.affects(before.0.6, after.0.6)
    }

    fn affect(self, param: &mut Self::MutParam) {
        let (e0, e1, e2, e3, e4, e5, e6) = self;
        e0.affect(param.p0());
        e1.affect(param.p1());
        e2.affect(param.p2());
        e3.affect(param.p3());
        e4.affect(param.p4());
        e5.affect(param.p5());
        e6.affect(param.p6());
    }
}

/// Eight effects in a tuple: they are applied from left to right, each to its own part.
impl<E0: Effect, E1: Effect, E2: Effect, E3: Effect, E4: Effect, E5: Effect, E6: Effect, E7: Effect> Effect for (E0, E1, E2, E3, E4, E5, E6, E7) {
    type MutParam = ParamSet<(E0::MutParam, E1::MutParam, E2::MutParam, E3::MutParam, E4::MutParam, E5::MutParam, E6::MutParam, E7::MutParam)>;

    open spec fn applies_to(self, param: Self::MutParam) -> bool {
        &&& self.0.applies_to(param.0.0)
        &&& self.1.applies_to(param.0.1)
        &&& self.2.applies_to(param.0.2)
        &&& self.3.applies_to(param.0.3)
        &&& self.4.applies_to(param.0.4)
        &&& self.5.applies_to(param.0.5)
        &&& self.6.applies_to(param.0.6)
        &&& self.7.applies_to(param.0.7)
    }

    open spec fn affects(self, before: Self::MutParam, after: Self::MutParam) -> bool {
        &&& self.0.affects(before.0.0, after.0.0)
        &&& self.1.affects(before.0.1, after.0.1)
        &&& self.2.affects(before.0.2, after.0.2)
        &&& self.3.affects(before.0.3, after.0.3)
        &&& self.4.affects(before.0.4, after.0.4)
        &&& self.5.affects(before.0.5, after.0.5)
        &&& self.6.affects(before.0.6, after.0.6)
        &&& self.7.affects(before.0.7, after.0.7)
    }

    fn affect(self, param: &mut Self::MutParam) {
        let (e0, e1, e2, e3, e4, e5, e6, e7) = self;
        e0.affect(param.p0());
        e1.affect(param.p1());
        e2.affect(param.p2());
        e3.affect(param.p3());
        e4.affect(param.p4());
        e5.affect(param.p5());
        e6.affect(param.p6());
        e7.affect(param.p7());
    }
}

/// One of two effects. A part is kept for each of them; the effect that is held is
/// applied to its own part, and the part of the other stays as it is.
impl<E0: Effect, E1: Effect> Effect for Either<E0, E1> {
    type MutParam = ParamSet<(E0::MutParam, E1::MutParam)>;

    open spec fn applies_to(self, param: Self::MutParam) -> bool {
        match self {
            Either::Left(e0) => e0.applies_to(param.0.0),
            Either::Right(e1) => e1.applies_to(param.0.1),
        }
    }

    open spec fn affects(self, before: Self::MutParam, after: Self::MutParam) -> bool {
        match self {
            Either::Left(e0) => e0.affects(before.0.0, after.0.0) && after.0.1 == before.0.1,
            Either::Right(e1) => e1.affects(before.0.1, after.0.1) && after.0.0 == before.0.0,
        }
    }

    fn affect(self, param: &mut Self::MutParam) {
        match self {
            Either::Left(e0) => e0.affect(param.p0()),
            Either::Right(e1) => e1.affect(param.p1()),
        }
    }
}

/// Three effects do the same however they are grouped, as long as they keep their order:
/// `(a, b, c)`, `((a, b), c)` and `(a, (b, c))` apply to the same states of the three
/// parts, and take them to the same states.
pub proof fn lemma_tuple_grouping<A: Effect, B: Effect, C: Effect>(
    a: A,
    b: B,
    c: C,
    before: (A::MutParam, B::MutParam, C::MutParam),
    after: (A::MutParam, B::MutParam, C::MutParam),
)
    ensures
        (a, b, c).applies_to(ParamSet(before)) <==> ((a, b), c).applies_to(
            ParamSet((ParamSet((before.0, before.1)), before.2)),
        ),
        (a, b, c).applies_to(ParamSet(before)) <==> (a, (b, c)).applies_to(
            ParamSet((before.0, ParamSet((before.1, before.2)))),
        ),
        (a, b, c).affects(ParamSet(before), ParamSet(after)) <==> ((a, b), c).affects(
            ParamSet((ParamSet((before.0, before.1)), before.2)),
            ParamSet((ParamSet((after.0, after.1)), after.2)),
        ),
        (a, b, c).affects(ParamSet(before), ParamSet(after)) <==> (a, (b, c)).affects(
            ParamSet((before.0, ParamSet((before.1, before.2)))),
            ParamSet((after.0, ParamSet((after.1, after.2)))),
        ),
{
}

/// A choice of two effects leaves the part of the effect it does not hold as it was, and
/// changes the part of the effect it holds as that effect does.
pub proof fn lemma_choice_exclusive<L: Effect, R: Effect>(
    choice: Either<L, R>,
    before: ParamSet<(L::MutParam, R::MutParam)>,
    after: ParamSet<(L::MutParam, R::MutParam)>,
)
    requires
        choice.affects(before, after),
    ensures
        match choice {
            Either::Left(left) => left.affects(before.0.0, after.0.0) && after.0.1 == before.0.1,
            Either::Right(right) => right.affects(before.0.1, after.0.1) && after.0.0
                == before.0.0,
        },
{
}

} // verus!
