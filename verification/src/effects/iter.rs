//! Effects made of any number of effects of one kind.

use vstd::prelude::*;

use crate::effect::Effect;

verus! {

/// Whether applying the first `n` of `effects`, one after the other and to the same
/// state, can take that state from `before` to `after`.
pub open spec fn affects_in_order<E: Effect>(
    effects: Seq<E>,
    n: nat,
    before: E::MutParam,
    after: E::MutParam,
) -> bool
    recommends
        n <= effects.len(),
    decreases n,
{
    if n == 0 {
        after == before
    } else {
        exists|between: E::MutParam|
            affects_in_order(effects, (n - 1) as nat, before, between) && (
            #[trigger] effects[n - 1].affects(between, after))
    }
}

/// Applying one effect more extends what the effects before it have done.
pub proof fn lemma_affects_in_order_next<E: Effect>(
    effects: Seq<E>,
    n: nat,
    before: E::MutParam,
    between: E::MutParam,
    after: E::MutParam,
)
    requires
        n < effects.len(),
        affects_in_order(effects, n, before, between),
        effects[n as int].affects(between, after),
    ensures
        affects_in_order(effects, n + 1, before, after),
{
    assert(affects_in_order(effects, ((n + 1) - 1) as nat, before, between));
    assert(effects[(n + 1) - 1].affects(between, after));
}

/// Applying the effects of `first` and then those of `second` is applying the effects of
/// the two sequences joined: what the joined sequence does up to the end of `first` is
/// what `first` does, and from there on it does what `second` does.
pub proof fn lemma_affects_in_order_joined<E: Effect>(
    first: Seq<E>,
    second: Seq<E>,
    n: nat,
    before: E::MutParam,
    between: E::MutParam,
    after: E::MutParam,
)
    requires
        n <= second.len(),
        affects_in_order(first, first.len(), before, between),
        affects_in_order(second, n, between, after),
    ensures
        affects_in_order(first + second, first.len() + n, before, after),
    decreases n,
{
    let joined = first + second;
    if n == 0 {
        lemma_affects_in_order_prefix(first, joined, first.len(), before, between);
    } else {
        let last = choose|last: E::MutParam|
            affects_in_order(second, (n - 1) as nat, between, last) && (
            #[trigger] second[n - 1].affects(last, after));
        lemma_affects_in_order_joined(first, second, (n - 1) as nat, before, between, last);
        assert(joined[first.len() + n - 1] == second[n - 1]);
        lemma_affects_in_order_next(joined, (first.len() + n - 1) as nat, before, last, after);
    }
}

/// Whatever the effects of two sequences joined do, the effects of the first do one part
/// of it and the effects of the second do the rest.
pub proof fn lemma_affects_in_order_split<E: Effect>(
    first: Seq<E>,
    second: Seq<E>,
    n: nat,
    before: E::MutParam,
    after: E::MutParam,
)
    requires
        n <= second.len(),
        affects_in_order(first + second, first.len() + n, before, after),
    ensures
        exists|between: E::MutParam|
            affects_in_order(first, first.len(), before, between) && #[trigger] affects_in_order(
                second,
                n,
                between,
                after,
            ),
    decreases n,
{
    let joined = first + second;
    if n == 0 {
        lemma_affects_in_order_prefix(joined, first, first.len(), before, after);
        assert(affects_in_order(second, 0, after, after));
    } else {
        let last = choose|last: E::MutParam|
            affects_in_order(joined, (first.len() + n - 1) as nat, before, last) && (
            #[trigger] joined[first.len() + n - 1].affects(last, after));
        lemma_affects_in_order_split(first, second, (n - 1) as nat, before, last);
        let between = choose|between: E::MutParam|
            affects_in_order(first, first.len(), before, between) && #[trigger] affects_in_order(
                second,
                (n - 1) as nat,
                between,
                last,
            );
        assert(joined[first.len() + n - 1] == second[n - 1]);
        lemma_affects_in_order_next(second, (n - 1) as nat, between, last, after);
        assert(affects_in_order(second, n, between, after));
    }
}

/// A vector that holds the effects of one vector followed by those of another does what
/// the first does and then what the second does, and nothing else.
pub proof fn lemma_joined_vec_affects<E: Effect>(
    first: Vec<E>,
    second: Vec<E>,
    joined: Vec<E>,
    before: E::MutParam,
    after: E::MutParam,
)
    requires
        joined@ == first@ + second@,
    ensures
        joined.affects(before, after) <==> exists|between: E::MutParam|
            first.affects(before, between) && #[trigger] second.affects(between, after),
{
    if joined.affects(before, after) {
        lemma_affects_in_order_split(first@, second@, second@.len(), before, after);
        let between = choose|between: E::MutParam|
            affects_in_order(first@, first@.len(), before, between) && #[trigger] affects_in_order(
                second@,
                second@.len(),
                between,
                after,
            );
        assert(first.affects(before, between) && second.affects(between, after));
    }
    if exists|between: E::MutParam|
        first.affects(before, between) && #[trigger] second.affects(between, after) {
        let between = choose|between: E::MutParam|
            first.affects(before, between) && #[trigger] second.affects(between, after);
        lemma_affects_in_order_joined(first@, second@, second@.len(), before, between, after);
    }
}

/// What the first `n` effects of a sequence do depends on those `n` effects alone.
pub proof fn lemma_affects_in_order_prefix<E: Effect>(
    effects: Seq<E>,
    other: Seq<E>,
    n: nat,
    before: E::MutParam,
    after: E::MutParam,
)
    requires
        n <= effects.len(),
        n <= other.len(),
        forall|i: int| 0 <= i < n ==> effects[i] == other[i],
        affects_in_order(effects, n, before, after),
    ensures
        affects_in_order(other, n, before, after),
    decreases n,
{
    if n > 0 {
        let between = choose|between: E::MutParam|
            affects_in_order(effects, (n - 1) as nat, before, between) && (
            #[trigger] effects[n - 1].affects(between, after));
        lemma_affects_in_order_prefix(effects, other, (n - 1) as nat, before, between);
        lemma_affects_in_order_next(other, (n - 1) as nat, before, between, after);
    }
}

/// Whether `effects` can be applied in order to `param`: each of them must apply to
/// every state that the ones before it can leave.
pub open spec fn applies_in_order<E: Effect>(effects: Seq<E>, param: E::MutParam) -> bool {
    forall|n: nat, between: E::MutParam|
        n < effects.len() && #[trigger] affects_in_order(effects, n, param, between)
            ==> effects[n as int].applies_to(between)
}

/// Every effect in the vector, applied in order to the same state.
impl<E: Effect> Effect for Vec<E> {
    type MutParam = E::MutParam;

    open spec fn applies_to(self, param: Self::MutParam) -> bool {
        applies_in_order(self@, param)
    }

    open spec fn affects(self, before: Self::MutParam, after: Self::MutParam) -> bool {
        affects_in_order(self@, self@.len(), before, after)
    }

    fn affect(self, param: &mut Self::MutParam) {
        let ghost effects = self@;
        for effect in it: self
            invariant
                it.seq() == effects,
                applies_in_order(effects, *old(param)),
                affects_in_order(effects, it.index() as nat, *old(param), *param),
        {
            let ghost between = *param;
            effect.affect(param);
            proof {
                lemma_affects_in_order_next(
                    effects,
                    it.index() as nat,
                    *old(param),
                    between,
                    *param,
                );
            }
        }
    }
}

/// The effect that is held, if there is one; `None` changes nothing.
impl<E: Effect> Effect for Option<E> {
    type MutParam = E::MutParam;

    open spec fn applies_to(self, param: Self::MutParam) -> bool {
        match self {
            Some(effect) => effect.applies_to(param),
            None => true,
        }
    }

    open spec fn affects(self, before: Self::MutParam, after: Self::MutParam) -> bool {
        match self {
            Some(effect) => effect.affects(before, after),
            None => after == before,
        }
    }

    fn affect(self, param: &mut Self::MutParam) {
        match self {
            Some(effect) => effect.affect(param),
            None => {},
        }
    }
}

/// [`Effect`] that causes all effects in the provided collection, in order.
///
/// Using a plain `Vec` or `Option` as an effect works too.
///
/// Can be constructed with [`affect_many`].
#[derive(Default, Debug, Copy, Clone, PartialEq, Eq)]
pub struct AffectMany<I> {
    /// The collection of effects to affect.
    pub iter: I,
}

/// Construct a new [`AffectMany`] [`Effect`].
pub fn affect_many<I>(iter: I) -> (effect: AffectMany<I>)
    ensures
        effect.iter == iter,
{
    AffectMany { iter }
}

impl<E: Effect> Effect for AffectMany<Vec<E>> {
    type MutParam = E::MutParam;

    open spec fn applies_to(self, param: Self::MutParam) -> bool {
        self.iter.applies_to(param)
    }

    open spec fn affects(self, before: Self::MutParam, after: Self::MutParam) -> bool {
        self.iter.affects(before, after)
    }

    fn affect(self, param: &mut Self::MutParam) {
        self.iter.affect(param);
    }
}

impl<E: Effect> Effect for AffectMany<Option<E>> {
    type MutParam = E::MutParam;

    open spec fn applies_to(self, param: Self::MutParam) -> bool {
        self.iter.applies_to(param)
    }

    open spec fn affects(self, before: Self::MutParam, after: Self::MutParam) -> bool {
        self.iter.affects(before, after)
    }

    fn affect(self, param: &mut Self::MutParam) {
        self.iter.affect(param);
    }
}

} // verus!
