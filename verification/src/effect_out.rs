//! An effect together with an ordinary output.

use vstd::prelude::*;

use crate::effect::Effect;
use crate::effect_composition::{combine, extend};

verus! {

/// An [`Effect`] and an output.
///
/// Can be returned by a function that decides on an effect and has something to hand on
/// besides: the effect is `E`, what is handed on is `O`.
#[derive(Copy, Clone, PartialEq, Eq, Debug, Default)]
pub struct EffectOut<E, O> {
    /// The effect to produce.
    pub effect: E,
    /// The output to hand on.
    pub out: O,
}

/// Construct a new [`EffectOut`].
pub fn effect_out<E, O>(effect: E, out: O) -> (paired: EffectOut<E, O>)
    ensures
        paired == (EffectOut { effect, out }),
{
    EffectOut { effect, out }
}

/// The conversion of a value into its own type, `From::from` of `impl<T> From<T> for T`.
/// It returns its argument unchanged.
pub assume_specification<Value>[ <Value as core::convert::From<Value>>::from ](value: Value) -> (same:
    Value)
    ensures
        same == value,
;

/// Whether converting `produced` can give `converted`.
pub open spec fn converts_to<T: Into<U>, U>(produced: T, converted: U) -> bool {
    call_ensures(<T as Into<U>>::into, (produced,), converted)
}

impl<E, O> EffectOut<E, O> {
    /// Whether `mapped` can come of mapping the output with `f`: the effect is kept, and
    /// the output is one that `f` can make of this output.
    pub open spec fn maps_to<O2, F: FnOnce(O) -> O2>(self, f: F, mapped: EffectOut<E, O2>) -> bool {
        &&& mapped.effect == self.effect
        &&& call_ensures(f, (self.out,), mapped.out)
    }

    /// Whether `composed` can come of calling `f` on the output and composing this effect
    /// with the one that `f` produced: the effect is one that `compose` can make of the
    /// two, this one first, and the output is the one that `f` produced.
    pub open spec fn composes_to<IntoEffectOut, E2, O2, E3, F, C>(
        self,
        f: F,
        compose: C,
        composed: EffectOut<E3, O2>,
    ) -> bool where
        IntoEffectOut: Into<EffectOut<E2, O2>>,
        F: FnOnce(O) -> IntoEffectOut,
        C: FnOnce(E, E2) -> E3,
     {
        exists|produced: IntoEffectOut, next: EffectOut<E2, O2>|
            {
                &&& call_ensures(f, (self.out,), produced)
                &&& #[trigger] converts_to(produced, next)
                &&& call_ensures(compose, (self.effect, next.effect), composed.effect)
                &&& composed.out == next.out
            }
    }

    /// Whether `combined` can come of calling `f` on the output and pairing this effect
    /// with the one that `f` produced: the effect is the pair of the two, this one first,
    /// and the output is the one that `f` produced.
    pub open spec fn combines_to<IntoEffectOut, E2, O2, F>(
        self,
        f: F,
        combined: EffectOut<(E, E2), O2>,
    ) -> bool where IntoEffectOut: Into<EffectOut<E2, O2>>, F: FnOnce(O) -> IntoEffectOut {
        exists|produced: IntoEffectOut, next: EffectOut<E2, O2>|
            {
                &&& call_ensures(f, (self.out,), produced)
                &&& #[trigger] converts_to(produced, next)
                &&& combined == (EffectOut { effect: (self.effect, next.effect), out: next.out })
            }
    }

    /// Whether `compose` can be called on this effect and every effect that `f` can
    /// produce from the output.
    pub open spec fn composes_with<IntoEffectOut, E2, O2, E3, F, C>(self, f: F, compose: C) -> bool where
        IntoEffectOut: Into<EffectOut<E2, O2>>,
        F: FnOnce(O) -> IntoEffectOut,
        C: FnOnce(E, E2) -> E3,
     {
        forall|produced: IntoEffectOut, next: EffectOut<E2, O2>|
            call_ensures(f, (self.out,), produced) && #[trigger] converts_to(produced, next)
                ==> call_requires(compose, (self.effect, next.effect))
    }

    /// Maps a `EffectOut<E, O>` to an `EffectOut<E, O2>` by applying a function to the
    /// output.
    pub fn map<O2, F: FnOnce(O) -> O2>(self, f: F) -> (mapped: EffectOut<E, O2>)
        requires
            call_requires(f, (self.out,)),
        ensures
            self.maps_to(f, mapped),
    {
        let EffectOut { effect, out } = self;
        EffectOut { effect, out: f(out) }
    }

    /// Apply a function `f` to the output and return an `EffectOut` with [`Effect`]
    /// combination.
    ///
    /// i.e. `f` takes the output and returns an [`Effect`] (or `EffectOut`). Then, this
    /// returns an `EffectOut` whose effect is the pair of this effect and the effect
    /// returned by `f`, in this order.
    ///
    /// See [`EffectOut::and_then_compose`] for more effect composition flexibility.
    pub fn and_then<IntoEffectOut, E2, O2, F>(self, f: F) -> (combined: EffectOut<(E, E2), O2>) where
        IntoEffectOut: Into<EffectOut<E2, O2>>,
        F: FnOnce(O) -> IntoEffectOut,

        requires
            call_requires(f, (self.out,)),
        ensures
            self.combines_to(f, combined),
    {
        self.and_then_compose(f, combine)
    }

    /// Apply a function `f` to the output and return an `EffectOut` with [`Effect`]
    /// composition.
    ///
    /// i.e. `f` takes the output and returns an [`Effect`] (or `EffectOut`). Then, this
    /// returns an `EffectOut` whose effect is the composition of this effect, and the
    /// effect returned by `f`. The composition of the effects is defined by the function
    /// `compose`.
    ///
    /// Some basic effect composition functions are provided by this library in the
    /// [`effect_composition`] module.
    ///
    /// [`effect_composition`]: crate::effect_composition
    pub fn and_then_compose<IntoEffectOut, E2, O2, E3, F, C>(self, f: F, compose: C) -> (composed:
        EffectOut<E3, O2>) where
        IntoEffectOut: Into<EffectOut<E2, O2>>,
        F: FnOnce(O) -> IntoEffectOut,
        C: FnOnce(E, E2) -> E3,

        requires
            call_requires(f, (self.out,)),
            self.composes_with(f, compose),
        ensures
            self.composes_to(f, compose, composed),
    {
        let produced = self.map(f);
        let next = produced.map(<IntoEffectOut as Into<EffectOut<E2, O2>>>::into);
        assert(converts_to(produced.out, next.out));
        next.flatten_compose(compose)
    }
}

impl<E, O> EffectOut<Vec<E>, O> {
    /// Whether `extended` can come of calling `f` on the output and extending this effect
    /// by the one that `f` produced: the effects are those of this vector followed by
    /// those that `f` produced, each in the order it had, and the output is the one that
    /// `f` produced.
    pub open spec fn extends_to<IntoEffectOut, O2, F>(
        self,
        f: F,
        extended: EffectOut<Vec<E>, O2>,
    ) -> bool where IntoEffectOut: Into<EffectOut<Vec<E>, O2>>, F: FnOnce(O) -> IntoEffectOut {
        exists|produced: IntoEffectOut, next: EffectOut<Vec<E>, O2>|
            {
                &&& call_ensures(f, (self.out,), produced)
                &&& #[trigger] converts_to(produced, next)
                &&& extended.effect@ == self.effect@ + next.effect@
                &&& extended.out == next.out
            }
    }

    /// Apply a function `f` to the output and return an `EffectOut` with [`Effect`]
    /// extension.
    ///
    /// i.e. this effect is a vector of effects, and `f` takes the output and returns a
    /// vector of effects (or an `EffectOut` of one). Then, this returns an `EffectOut`
    /// whose effect is the concatenation of this effect, and the effect returned by `f`.
    ///
    /// See [`EffectOut::and_then_compose`] for more effect composition flexibility.
    pub fn and_extend<IntoEffectOut, O2, F>(self, f: F) -> (extended: EffectOut<Vec<E>, O2>) where
        IntoEffectOut: Into<EffectOut<Vec<E>, O2>>,
        F: FnOnce(O) -> IntoEffectOut,

        requires
            call_requires(f, (self.out,)),
        ensures
            self.extends_to(f, extended),
    {
        self.and_then_compose(f, extend)
    }
}

impl<E1, E2, O> EffectOut<E1, EffectOut<E2, O>> {
    /// The pairing of the two effects, the outer one first, with the inner output.
    pub open spec fn flattened(self) -> EffectOut<(E1, E2), O> {
        EffectOut { effect: (self.effect, self.out.effect), out: self.out.out }
    }

    /// Whether `flat` can come of composing the two effects: the effect is one that
    /// `compose` can make of the outer and the inner effect, and the output is the inner
    /// one.
    pub open spec fn flattens_to<E3, C>(self, compose: C, flat: EffectOut<E3, O>) -> bool where
        C: FnOnce(E1, E2) -> E3,
     {
        &&& call_ensures(compose, (self.effect, self.out.effect), flat.effect)
        &&& flat.out == self.out.out
    }

    /// Flattens a nested `EffectOut` with [`Effect`] combination.
    ///
    /// i.e. `EffectOut<E1, EffectOut<E2, 0>>` becomes `EffectOut<(E1, E2), O>`.
    ///
    /// See [`EffectOut::flatten_compose`] for more effect composition flexibility.
    pub fn flatten(self) -> (flat: EffectOut<(E1, E2), O>)
        ensures
            flat == self.flattened(),
    {
        self.flatten_compose(combine)
    }

    /// Flattens a nested `EffectOut` with [`Effect`] composition.
    ///
    /// i.e. `EffectOut<E1, EffectOut<E2, 0>>` becomes `EffectOut<E3, O>` using the effect
    /// composition function `compose`.
    ///
    /// Some basic effect composition functions are provided by this library in the
    /// [`effect_composition`] module.
    ///
    /// [`effect_composition`]: crate::effect_composition
    pub fn flatten_compose<E3, C>(self, compose: C) -> (flat: EffectOut<E3, O>) where
        C: FnOnce(E1, E2) -> E3,

        requires
            call_requires(compose, (self.effect, self.out.effect)),
        ensures
            self.flattens_to(compose, flat),
    {
        let EffectOut { effect: effect_1, out: EffectOut { effect: effect_2, out } } = self;
        EffectOut { effect: compose(effect_1, effect_2), out }
    }
}

impl<E, O> EffectOut<Vec<E>, Vec<O>> {
    /// The pairs that the effects and the outputs make, position by position.
    pub open spec fn pairs(self) -> Seq<EffectOut<E, O>>
        recommends
            self.effect@.len() == self.out@.len(),
    {
        Seq::new(
            self.effect@.len(),
            |i: int| (EffectOut { effect: self.effect@[i], out: self.out@[i] }),
        )
    }

    /// Collects effects with their outputs into the vector of the effects with the vector
    /// of the outputs, each in the order of the pairs.
    pub fn from_iter(iter: Vec<EffectOut<E, O>>) -> (collected: Self)
        ensures
            collected.effect@ == Seq::new(iter@.len(), |i: int| iter@[i].effect),
            collected.out@ == Seq::new(iter@.len(), |i: int| iter@[i].out),
            collected.pairs() == iter@,
    {
        let ghost pairs = iter@;
        let mut e_iter: Vec<E> = Vec::new();
        let mut o_iter: Vec<O> = Vec::new();
        for pair in it: iter
            invariant
                it.seq() == pairs,
                e_iter@ == Seq::new(it.index() as nat, |i: int| pairs[i].effect),
                o_iter@ == Seq::new(it.index() as nat, |i: int| pairs[i].out),
        {
            let EffectOut { effect, out } = pair;
            e_iter.push(effect);
            o_iter.push(out);
            proof {
                assert(e_iter@ =~= Seq::new((it.index() + 1) as nat, |i: int| pairs[i].effect));
                assert(o_iter@ =~= Seq::new((it.index() + 1) as nat, |i: int| pairs[i].out));
            }
        }
        let collected = EffectOut { effect: e_iter, out: o_iter };
        proof {
            assert(collected.pairs() =~= pairs);
        }
        collected
    }
}

impl<E> From<E> for EffectOut<E, ()> where E: Effect {
    fn from(effect: E) -> (paired: Self) {
        EffectOut { effect, out: () }
    }
}

impl<E> vstd::std_specs::convert::FromSpecImpl<E> for EffectOut<E, ()> where E: Effect {
    open spec fn obeys_from_spec() -> bool {
        true
    }

    open spec fn from_spec(effect: E) -> Self {
        EffectOut { effect, out: () }
    }
}

/// An effect-and-output converts into itself, and into nothing else.
pub proof fn lemma_converts_to_itself<E, O>(paired: EffectOut<E, O>, converted: EffectOut<E, O>)
    requires
        converts_to(paired, converted),
    ensures
        converted == paired,
{
}

/// A plain effect converts into the effect with no output, and into nothing else.
pub proof fn lemma_effect_converts_to_unit_out<E: Effect>(effect: E, converted: EffectOut<E, ()>)
    requires
        converts_to(effect, converted),
    ensures
        converted == (EffectOut { effect, out: () }),
{
}

/// Mapping the output with `f` and then with `g` is mapping it with `g` after `f`: the
/// effect is kept, and the output is one that `g` can make of one that `f` can make of
/// the first output. Every such output comes of the two mappings.
pub proof fn lemma_map_map<E, O, O2, O3, F: FnOnce(O) -> O2, G: FnOnce(O2) -> O3>(
    paired: EffectOut<E, O>,
    f: F,
    g: G,
    twice: EffectOut<E, O3>,
)
    ensures
        (exists|once: EffectOut<E, O2>| #[trigger] paired.maps_to(f, once) && once.maps_to(g, twice))
            <==> twice.effect == paired.effect && exists|between: O2|
            call_ensures(f, (paired.out,), between) && #[trigger] call_ensures(
                g,
                (between,),
                twice.out,
            ),
{
    if exists|once: EffectOut<E, O2>| #[trigger] paired.maps_to(f, once) && once.maps_to(g, twice) {
        let once = choose|once: EffectOut<E, O2>| #[trigger]
            paired.maps_to(f, once) && once.maps_to(g, twice);
        assert(call_ensures(g, (once.out,), twice.out));
    }
    if twice.effect == paired.effect && exists|between: O2|
        call_ensures(f, (paired.out,), between) && #[trigger] call_ensures(
            g,
            (between,),
            twice.out,
        ) {
        let between = choose|between: O2|
            call_ensures(f, (paired.out,), between) && #[trigger] call_ensures(
                g,
                (between,),
                twice.out,
            );
        let once = EffectOut { effect: paired.effect, out: between };
        assert(paired.maps_to(f, once) && once.maps_to(g, twice));
    }
}

/// An effect, followed by a function that returns a second effect whatever it is given,
/// is the pair of the two effects in this order, with no output.
pub proof fn lemma_and_then_of_effects<E, E2, F: FnOnce(()) -> EffectOut<E2, ()>>(
    effect: E,
    next: E2,
    f: F,
    combined: EffectOut<(E, E2), ()>,
)
    requires
        forall|produced: EffectOut<E2, ()>| #[trigger]
            call_ensures(f, ((),), produced) ==> produced == (EffectOut { effect: next, out: () }),
        (EffectOut { effect, out: () }).combines_to(f, combined),
    ensures
        combined == (EffectOut { effect: (effect, next), out: () }),
{
}

/// Flattening what two mappings have nested, the first with `f` and the second with the
/// conversion into an effect-and-output, is the same as calling `and_then` with `f`.
pub proof fn lemma_flatten_of_maps<E, O, IntoEffectOut, E2, O2, F>(
    paired: EffectOut<E, O>,
    f: F,
    flat: EffectOut<(E, E2), O2>,
) where
    IntoEffectOut: Into<EffectOut<E2, O2>>,
    F: FnOnce(O) -> IntoEffectOut,

    ensures
        (exists|mapped: EffectOut<E, IntoEffectOut>, nested: EffectOut<E, EffectOut<E2, O2>>|
            {
                &&& #[trigger] paired.maps_to(f, mapped)
                &&& nested.effect == mapped.effect
                &&& #[trigger] converts_to(mapped.out, nested.out)
                &&& flat == nested.flattened()
            }) <==> paired.combines_to(f, flat),
{
    if paired.combines_to(f, flat) {
        let (produced, next) = choose|produced: IntoEffectOut, next: EffectOut<E2, O2>|
            {
                &&& call_ensures(f, (paired.out,), produced)
                &&& #[trigger] converts_to(produced, next)
                &&& flat == (EffectOut { effect: (paired.effect, next.effect), out: next.out })
            };
        let mapped = EffectOut { effect: paired.effect, out: produced };
        let nested = EffectOut { effect: paired.effect, out: next };
        assert(paired.maps_to(f, mapped) && converts_to(mapped.out, nested.out));
    }
}

} // verus!
