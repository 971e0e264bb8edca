//! [`Effect`] composition functions, that can be used with
//! [`EffectOut::and_then_compose`] and [`EffectOut::flatten_compose`].
//!
//! [`EffectOut::and_then_compose`]: crate::EffectOut::and_then_compose
//! [`EffectOut::flatten_compose`]: crate::EffectOut::flatten_compose

use vstd::prelude::*;

use crate::effects::AffectOrHandle;

verus! {

/// [`Effect`] composition function that returns the first effect.
pub fn mandela<E0, E1>(e0: E0, _e1: E1) -> (composed: E0)
    ensures
        composed == e0,
{
    e0
}

/// [`Effect`] composition function that returns the second effect.
pub fn placebo<E0, E1>(_e0: E0, e1: E1) -> (composed: E1)
    ensures
        composed == e1,
{
    e1
}

/// [`Effect`] composition function that returns an effect that will apply both in order.
pub fn combine<E0, E1>(e0: E0, e1: E1) -> (composed: (E0, E1))
    ensures
        composed == (e0, e1),
{
    (e0, e1)
}

/// [`Effect`] composition function that returns an effect that will apply both in reverse
/// order.
pub fn enibmoc<E0, E1>(e0: E0, e1: E1) -> (composed: (E1, E0))
    ensures
        composed == (e1, e0),
{
    (e1, e0)
}

/// [`Effect`] composition function that returns the effects of the first vector followed
/// by the effects of the second, each in the order it had.
pub fn extend<E>(e0: Vec<E>, e1: Vec<E>) -> (composed: Vec<E>)
    ensures
        composed@ == e0@ + e1@,
{
    let mut composed = e0;
    let mut rest = e1;
    composed.append(&mut rest);
    composed
}

/// Returns an [`Effect`] composition function that applies the given composition to the
/// `Some`-wrapped left effect and the right effect, otherwise `None`.
pub fn lhs_some_then<E0, E1, E2>(composition: impl Fn(E0, E1) -> E2) -> (lifted: impl Fn(
    Option<E0>,
    E1,
) -> Option<E2>)
    ensures
        forall|option: Option<E0>, e1: E1|
            (option is Some ==> call_requires(composition, (option->0, e1))) ==> call_requires(
                lifted,
                (option, e1),
            ),
        forall|option: Option<E0>, e1: E1, composed: Option<E2>|
            call_ensures(lifted, (option, e1), composed) ==> match option {
                Some(e0) => composed is Some && call_ensures(composition, (e0, e1), composed->0),
                None => composed is None,
            },
{
    move |option: Option<E0>, e1: E1| -> (composed: Option<E2>)
        requires
            option is Some ==> call_requires(composition, (option->0, e1)),
        ensures
            match option {
                Some(e0) => composed is Some && call_ensures(composition, (e0, e1), composed->0),
                None => composed is None,
            },
        {
            match option {
                Some(e0) => Some(composition(e0, e1)),
                None => None,
            }
        }
}

/// Returns an [`Effect`] composition function that applies the given composition to the
/// left effect and the `Some`-wrapped right effect, otherwise `None`.
pub fn rhs_some_then<E0, E1, E2>(composition: impl Fn(E0, E1) -> E2) -> (lifted: impl Fn(
    E0,
    Option<E1>,
) -> Option<E2>)
    ensures
        forall|e0: E0, option: Option<E1>|
            (option is Some ==> call_requires(composition, (e0, option->0))) ==> call_requires(
                lifted,
                (e0, option),
            ),
        forall|e0: E0, option: Option<E1>, composed: Option<E2>|
            call_ensures(lifted, (e0, option), composed) ==> match option {
                Some(e1) => composed is Some && call_ensures(composition, (e0, e1), composed->0),
                None => composed is None,
            },
{
    move |e0: E0, option: Option<E1>| -> (composed: Option<E2>)
        requires
            option is Some ==> call_requires(composition, (e0, option->0)),
        ensures
            match option {
                Some(e1) => composed is Some && call_ensures(composition, (e0, e1), composed->0),
                None => composed is None,
            },
        {
            match option {
                Some(e1) => Some(composition(e0, e1)),
                None => None,
            }
        }
}

/// Returns an [`Effect`] composition function that applies the given composition to the
/// `Ok`-wrapped left effect and the right effect, otherwise `Err`.
pub fn lhs_ok_then<E0, E1, E2, Er>(composition: impl Fn(E0, E1) -> E2) -> (lifted: impl Fn(
    Result<E0, Er>,
    E1,
) -> Result<E2, Er>)
    ensures
        forall|result: Result<E0, Er>, e1: E1|
            (result is Ok ==> call_requires(composition, (result->Ok_0, e1))) ==> call_requires(
                lifted,
                (result, e1),
            ),
        forall|result: Result<E0, Er>, e1: E1, composed: Result<E2, Er>|
            call_ensures(lifted, (result, e1), composed) ==> match result {
                Ok(e0) => composed is Ok && call_ensures(composition, (e0, e1), composed->Ok_0),
                Err(error) => composed == Err::<E2, Er>(error),
            },
{
    move |result: Result<E0, Er>, e1: E1| -> (composed: Result<E2, Er>)
        requires
            result is Ok ==> call_requires(composition, (result->Ok_0, e1)),
        ensures
            match result {
                Ok(e0) => composed is Ok && call_ensures(composition, (e0, e1), composed->Ok_0),
                Err(error) => composed == Err::<E2, Er>(error),
            },
        {
            match result {
                Ok(e0) => Ok(composition(e0, e1)),
                Err(error) => Err(error),
            }
        }
}

/// Returns an [`Effect`] composition function that applies the given composition to the
/// left effect and the `Ok`-wrapped right effect, otherwise `Err`.
pub fn rhs_ok_then<E0, E1, E2, Er>(composition: impl Fn(E0, E1) -> E2) -> (lifted: impl Fn(
    E0,
    Result<E1, Er>,
) -> Result<E2, Er>)
    ensures
        forall|e0: E0, result: Result<E1, Er>|
            (result is Ok ==> call_requires(composition, (e0, result->Ok_0))) ==> call_requires(
                lifted,
                (e0, result),
            ),
        forall|e0: E0, result: Result<E1, Er>, composed: Result<E2, Er>|
            call_ensures(lifted, (e0, result), composed) ==> match result {
                Ok(e1) => composed is Ok && call_ensures(composition, (e0, e1), composed->Ok_0),
                Err(error) => composed == Err::<E2, Er>(error),
            },
{
    move |e0: E0, result: Result<E1, Er>| -> (composed: Result<E2, Er>)
        requires
            result is Ok ==> call_requires(composition, (e0, result->Ok_0)),
        ensures
            match result {
                Ok(e1) => composed is Ok && call_ensures(composition, (e0, e1), composed->Ok_0),
                Err(error) => composed == Err::<E2, Er>(error),
            },
        {
            match result {
                Ok(e1) => Ok(composition(e0, e1)),
                Err(error) => Err(error),
            }
        }
}

/// Whether `composed` can come of composing the `Ok` effect of `wrapped`, on the left,
/// with `e1`: an error and the handler are kept.
pub open spec fn lhs_affect_composed<E0, E1, E2, Er, Handler, C: Fn(E0, E1) -> E2>(
    composition: C,
    wrapped: AffectOrHandle<E0, Er, Handler>,
    e1: E1,
    composed: AffectOrHandle<E2, Er, Handler>,
) -> bool {
    &&& composed.handler == wrapped.handler
    &&& match wrapped.result {
        Ok(e0) => composed.result is Ok && call_ensures(
            composition,
            (e0, e1),
            composed.result->Ok_0,
        ),
        Err(error) => composed.result == Err::<E2, Er>(error),
    }
}

/// Whether `composed` can come of composing `e0` with the `Ok` effect of `wrapped`, on the
/// right: an error and the handler are kept.
pub open spec fn rhs_affect_composed<E0, E1, E2, Er, Handler, C: Fn(E0, E1) -> E2>(
    composition: C,
    e0: E0,
    wrapped: AffectOrHandle<E1, Er, Handler>,
    composed: AffectOrHandle<E2, Er, Handler>,
) -> bool {
    &&& composed.handler == wrapped.handler
    &&& match wrapped.result {
        Ok(e1) => composed.result is Ok && call_ensures(
            composition,
            (e0, e1),
            composed.result->Ok_0,
        ),
        Err(error) => composed.result == Err::<E2, Er>(error),
    }
}

/// Returns an [`Effect`] composition function that applies the given composition to the
/// `AffectOrHandle { result: Ok, .. }`-wrapped left effect and the right effect, otherwise
/// `AffectOrHandle { result: Err, .. }`.
pub fn lhs_affect_then<E0, E1, E2, Er, Handler>(composition: impl Fn(E0, E1) -> E2) -> (lifted: impl Fn(
    AffectOrHandle<E0, Er, Handler>,
    E1,
) -> AffectOrHandle<E2, Er, Handler>)
    ensures
        forall|wrapped: AffectOrHandle<E0, Er, Handler>, e1: E1|
            (wrapped.result is Ok ==> call_requires(composition, (wrapped.result->Ok_0, e1)))
                ==> call_requires(lifted, (wrapped, e1)),
        forall|
            wrapped: AffectOrHandle<E0, Er, Handler>,
            e1: E1,
            composed: AffectOrHandle<E2, Er, Handler>,
        |
            call_ensures(lifted, (wrapped, e1), composed) ==> lhs_affect_composed(
                composition,
                wrapped,
                e1,
                composed,
            ),
{
    move |affect_or_handle: AffectOrHandle<E0, Er, Handler>, e1: E1| -> (composed: AffectOrHandle<
        E2,
        Er,
        Handler,
    >)
        requires
            affect_or_handle.result is Ok ==> call_requires(
                composition,
                (affect_or_handle.result->Ok_0, e1),
            ),
        ensures
            lhs_affect_composed(composition, affect_or_handle, e1, composed),
        {
            let compose_with_right = |e0: E0| -> (composed: E2)
                requires
                    call_requires(composition, (e0, e1)),
                ensures
                    call_ensures(composition, (e0, e1), composed),
                { composition(e0, e1) };
            affect_or_handle.map(compose_with_right)
        }
}

/// Returns an [`Effect`] composition function that applies the given composition to the
/// left effect and the `AffectOrHandle { result: Ok, .. }`-wrapped right effect, otherwise
/// `AffectOrHandle { result: Err, .. }`.
pub fn rhs_affect_then<E0, E1, E2, Er, Handler>(composition: impl Fn(E0, E1) -> E2) -> (lifted: impl Fn(
    E0,
    AffectOrHandle<E1, Er, Handler>,
) -> AffectOrHandle<E2, Er, Handler>)
    ensures
        forall|e0: E0, wrapped: AffectOrHandle<E1, Er, Handler>|
            (wrapped.result is Ok ==> call_requires(composition, (e0, wrapped.result->Ok_0)))
                ==> call_requires(lifted, (e0, wrapped)),
        forall|
            e0: E0,
            wrapped: AffectOrHandle<E1, Er, Handler>,
            composed: AffectOrHandle<E2, Er, Handler>,
        |
            call_ensures(lifted, (e0, wrapped), composed) ==> rhs_affect_composed(
                composition,
                e0,
                wrapped,
                composed,
            ),
{
    move |e0: E0, affect_or_handle: AffectOrHandle<E1, Er, Handler>| -> (composed: AffectOrHandle<
        E2,
        Er,
        Handler,
    >)
        requires
            affect_or_handle.result is Ok ==> call_requires(
                composition,
                (e0, affect_or_handle.result->Ok_0),
            ),
        ensures
            rhs_affect_composed(composition, e0, affect_or_handle, composed),
        {
            let compose_with_left = |e1: E1| -> (composed: E2)
                requires
                    call_requires(composition, (e0, e1)),
                ensures
                    call_ensures(composition, (e0, e1), composed),
                { composition(e0, e1) };
            affect_or_handle.map(compose_with_left)
        }
}

} // verus!
