//! Functions that apply effects, and constructors of functions that compose them.
//!
//! A system, here, is a function that decides on an effect. It may also return an output
//! beside the effect, as an [`EffectOut`], and a later system may take that output as its
//! input.

use vstd::prelude::*;

use crate::effect::Effect;
use crate::effect_composition::{combine, extend};
use crate::effect_out::{converts_to, EffectOut};

verus! {

/// Accepts an [`Effect`] that a system has returned and performs its state transition.
///
/// What is accepted is anything that converts into an [`EffectOut<E, O>`], a plain effect
/// among them (with `O = ()`). The output of the [`EffectOut<E, O>`] is returned, so that
/// it can be handed on to more systems.
pub fn affect<IntoEffectOut, E, O>(into_effect_out: IntoEffectOut, param: &mut E::MutParam) -> (out:
    O) where IntoEffectOut: Into<EffectOut<E, O>>, E: Effect
    requires
        forall|effect_out: EffectOut<E, O>| #[trigger]
            converts_to(into_effect_out, effect_out) ==> effect_out.effect.applies_to(*old(param)),
    ensures
        exists|effect_out: EffectOut<E, O>|
            {
                &&& #[trigger] converts_to(into_effect_out, effect_out)
                &&& effect_out.effect.affects(*old(param), *final(param))
                &&& out == effect_out.out
            },
{
    let effect_out: EffectOut<E, O> = into_effect_out.into();
    assert(converts_to(into_effect_out, effect_out));
    let EffectOut { effect, out } = effect_out;
    effect.affect(param);
    out
}

/// Whether the system `s` and the composition `compose_fn` can be called on whatever
/// `piped_in` converts into: `s` on its output, `compose_fn` on its effect and every
/// effect that `s` can produce.
pub open spec fn pipes_into<IntoEffectOut1, E1, O1, S, IntoEffectOut2, E2, O2, E3, C>(
    piped_in: IntoEffectOut1,
    s: S,
    compose_fn: C,
) -> bool where
    S: Fn(O1) -> IntoEffectOut2,
    C: Fn(E1, E2) -> E3,
    IntoEffectOut1: Into<EffectOut<E1, O1>>,
    IntoEffectOut2: Into<EffectOut<E2, O2>>,
    E1: Effect,
    E2: Effect,
    E3: Effect,
 {
    forall|first: EffectOut<E1, O1>| #[trigger]
        converts_to(piped_in, first) ==> call_requires(s, (first.out,)) && first.composes_with(
            s,
            compose_fn,
        )
}

/// Whether `composed` can come of piping `piped_in` into the system `s` and composing the
/// two effects with `compose_fn`.
pub open spec fn pipes_to<IntoEffectOut1, E1, O1, S, IntoEffectOut2, E2, O2, E3, C>(
    piped_in: IntoEffectOut1,
    s: S,
    compose_fn: C,
    composed: EffectOut<E3, O2>,
) -> bool where
    S: Fn(O1) -> IntoEffectOut2,
    C: Fn(E1, E2) -> E3,
    IntoEffectOut1: Into<EffectOut<E1, O1>>,
    IntoEffectOut2: Into<EffectOut<E2, O2>>,
    E1: Effect,
    E2: Effect,
    E3: Effect,
 {
    exists|first: EffectOut<E1, O1>| #[trigger]
        converts_to(piped_in, first) && first.composes_to(s, compose_fn, composed)
}

/// Higher-order system constructor for composing two systems with effects via piping.
///
/// Accepts an effect-returning system `s` and returns a system that composes the effects
/// of the piped-in system and `s` using the `compose_fn` function.
///
/// Some basic effect composition functions are provided by this library in the
/// [`effect_composition`] module.
///
/// See [`in_and_then`] for a short-hand of `in_and_then_compose(s, combine)`.
///
/// If the piped-in system returns [`EffectOut<E, O>`] instead of a simple effect, then
/// the output is passed into the given system `s`. This allows for chaining many systems
/// and piping their outputs while composing their effects.
///
/// [`effect_composition`]: crate::effect_composition
pub fn in_and_then_compose<IntoEffectOut1, E1, O1, S, IntoEffectOut2, E2, O2, E3, C>(
    s: S,
    compose_fn: C,
) -> (piped: impl Fn(IntoEffectOut1) -> EffectOut<E3, O2>) where
    S: Fn(O1) -> IntoEffectOut2,
    C: Fn(E1, E2) -> E3,
    IntoEffectOut1: Into<EffectOut<E1, O1>>,
    IntoEffectOut2: Into<EffectOut<E2, O2>>,
    E1: Effect,
    E2: Effect,
    E3: Effect,

    ensures
        forall|piped_in: IntoEffectOut1|
            pipes_into(piped_in, s, compose_fn) ==> call_requires(piped, (piped_in,)),
        forall|piped_in: IntoEffectOut1, composed: EffectOut<E3, O2>|
            call_ensures(piped, (piped_in,), composed) ==> pipes_to(
                piped_in,
                s,
                compose_fn,
                composed,
            ),
{
    move |into_effect_out: IntoEffectOut1| -> (composed: EffectOut<E3, O2>)
        requires
            pipes_into(into_effect_out, s, compose_fn),
        ensures
            pipes_to(into_effect_out, s, compose_fn, composed),
        {
            let first: EffectOut<E1, O1> = into_effect_out.into();
            assert(converts_to(into_effect_out, first));
            let produced = s(first.out);
            let next: EffectOut<E2, O2> = produced.into();
            assert(converts_to(produced, next));
            let composed = EffectOut {
                effect: compose_fn(first.effect, next.effect),
                out: next.out,
            };
            assert(first.composes_to(s, compose_fn, composed));
            composed
        }
}

/// Higher-order system constructor for combining the effects of two systems via piping.
///
/// Accepts an effect-returning system `s` and returns a system that combines the effects
/// of the piped-in system and `s`.
///
/// To "combine" these effects just means to apply them in order, first the effect of the
/// piped-in system, then the effect of the given system. See [`in_and_then_compose`] for
/// more effect composition flexibility.
///
/// If the piped-in system returns [`EffectOut<E, O>`] instead of a simple effect, then
/// the output is passed into the given system `s`.
pub fn in_and_then<IntoEffectOut1, E1, O1, S, IntoEffectOut2, E2, O2>(s: S) -> (piped: impl Fn(
    IntoEffectOut1,
) -> EffectOut<(E1, E2), O2>) where
    S: Fn(O1) -> IntoEffectOut2,
    IntoEffectOut1: Into<EffectOut<E1, O1>>,
    IntoEffectOut2: Into<EffectOut<E2, O2>>,
    E1: Effect,
    E2: Effect,

    ensures
        forall|piped_in: IntoEffectOut1|
            (forall|first: EffectOut<E1, O1>| #[trigger]
                converts_to(piped_in, first) ==> call_requires(s, (first.out,)))
                ==> call_requires(piped, (piped_in,)),
        forall|piped_in: IntoEffectOut1, combined: EffectOut<(E1, E2), O2>|
            call_ensures(piped, (piped_in,), combined) ==> exists|first: EffectOut<E1, O1>|
                #[trigger] converts_to(piped_in, first) && first.combines_to(s, combined),
{
    move |into_effect_out: IntoEffectOut1| -> (combined: EffectOut<(E1, E2), O2>)
        requires
            forall|first: EffectOut<E1, O1>| #[trigger]
                converts_to(into_effect_out, first) ==> call_requires(s, (first.out,)),
        ensures
            exists|first: EffectOut<E1, O1>| #[trigger]
                converts_to(into_effect_out, first) && first.combines_to(s, combined),
        {
            let first: EffectOut<E1, O1> = into_effect_out.into();
            assert(converts_to(into_effect_out, first));
            let produced = s(first.out);
            let next: EffectOut<E2, O2> = produced.into();
            assert(converts_to(produced, next));
            let combined = EffectOut { effect: combine(first.effect, next.effect), out: next.out };
            assert(first.combines_to(s, combined));
            combined
        }
}

/// Higher-order system constructor for extending the effects of one system by those of
/// another via piping.
///
/// Accepts a system `s` that returns a vector of effects, and returns a system that
/// extends the vector of effects of the piped-in system by the effects of `s`, in order.
///
/// If the piped-in system returns [`EffectOut<E, O>`] instead of a simple effect, then
/// the output is passed into the given system `s`.
pub fn in_and_extend<IntoEffectOut1, E, O1, S, IntoEffectOut2, O2>(s: S) -> (piped: impl Fn(
    IntoEffectOut1,
) -> EffectOut<Vec<E>, O2>) where
    S: Fn(O1) -> IntoEffectOut2,
    IntoEffectOut1: Into<EffectOut<Vec<E>, O1>>,
    IntoEffectOut2: Into<EffectOut<Vec<E>, O2>>,
    E: Effect,

    ensures
        forall|piped_in: IntoEffectOut1|
            (forall|first: EffectOut<Vec<E>, O1>| #[trigger]
                converts_to(piped_in, first) ==> call_requires(s, (first.out,)))
                ==> call_requires(piped, (piped_in,)),
        forall|piped_in: IntoEffectOut1, extended: EffectOut<Vec<E>, O2>|
            call_ensures(piped, (piped_in,), extended) ==> exists|first: EffectOut<Vec<E>, O1>|
                #[trigger] converts_to(piped_in, first) && first.extends_to(s, extended),
{
    move |into_effect_out: IntoEffectOut1| -> (extended: EffectOut<Vec<E>, O2>)
        requires
            forall|first: EffectOut<Vec<E>, O1>| #[trigger]
                converts_to(into_effect_out, first) ==> call_requires(s, (first.out,)),
        ensures
            exists|first: EffectOut<Vec<E>, O1>| #[trigger]
                converts_to(into_effect_out, first) && first.extends_to(s, extended),
        {
            let first: EffectOut<Vec<E>, O1> = into_effect_out.into();
            assert(converts_to(into_effect_out, first));
            let produced = s(first.out);
            let next: EffectOut<Vec<E>, O2> = produced.into();
            assert(converts_to(produced, next));
            let extended = EffectOut { effect: extend(first.effect, next.effect), out: next.out };
            assert(first.extends_to(s, extended));
            extended
        }
}

} // verus!
