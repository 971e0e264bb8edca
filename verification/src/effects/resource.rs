//! Effects that set a value.

use std::marker::PhantomData;
use vstd::prelude::*;

use crate::effect::Effect;
use crate::effects::iter::affects_in_order;

verus! {

/// [`Effect`] that sets a resource to the provided value.
///
/// Can be constructed with [`res_set`].
#[derive(Copy, Clone, Debug, Default, PartialEq, Eq)]
pub struct ResSet<R> {
    /// The value that the resource will be set to.
    pub value: R,
}

/// Construct a new [`ResSet`] [`Effect`].
pub fn res_set<R>(value: R) -> (effect: ResSet<R>)
    ensures
        effect.value == value,
{
    ResSet { value }
}

impl<R> Effect for ResSet<R> {
    type MutParam = R;

    open spec fn applies_to(self, param: R) -> bool {
        true
    }

    open spec fn affects(self, before: R, after: R) -> bool {
        after == self.value
    }

    fn affect(self, param: &mut R) {
        *param = self.value;
    }
}

/// [`Effect`] that transforms a resource with the provided function.
///
/// The function is given a clone of the resource, and the resource is set to what it
/// returns.
///
/// Can be constructed with [`res_set_with`].
#[verifier::reject_recursive_types(R)]
#[derive(Debug, Default, PartialEq, Eq)]
pub struct ResSetWith<F, R> where F: FnOnce(R) -> R, R: Clone {
    f: F,
    phantom: PhantomData<R>,
}

impl<F, R> ResSetWith<F, R> where F: FnOnce(R) -> R, R: Clone {
    /// The function that transforms the resource.
    pub closed spec fn f(self) -> F {
        self.f
    }

    /// Construct a new [`ResSetWith`].
    pub fn new(f: F) -> (effect: Self)
        ensures
            effect.f() == f,
    {
        ResSetWith { f, phantom: PhantomData }
    }
}

impl<F, R> Clone for ResSetWith<F, R> where F: FnOnce(R) -> R + Clone, R: Clone {
    fn clone(&self) -> Self {
        ResSetWith { f: self.f.clone(), phantom: PhantomData }
    }
}

/// Construct a new [`ResSetWith`] [`Effect`].
pub fn res_set_with<F, R>(f: F) -> (effect: ResSetWith<F, R>) where F: FnOnce(R) -> R, R: Clone
    ensures
        effect.f() == f,
{
    ResSetWith::new(f)
}

impl<F, R> Effect for ResSetWith<F, R> where F: FnOnce(R) -> R, R: Clone {
    type MutParam = R;

    open spec fn applies_to(self, param: R) -> bool {
        forall|current: R| cloned(param, current) ==> call_requires(self.f(), (current,))
    }

    open spec fn affects(self, before: R, after: R) -> bool {
        exists|current: R| cloned(before, current) && call_ensures(self.f(), (current,), after)
    }

    fn affect(self, param: &mut R) {
        let current = param.clone();
        assert(cloned(*old(param), current));
        *param = (self.f)(current);
        assert(call_ensures(self.f(), (current,), *param));
    }
}

/// Effects that set the same resource, applied in order, leave the value of the last of
/// them, whatever the others set and whatever was there before. So the order of the
/// effects decides what is left.
pub proof fn lemma_last_set_wins<R>(effects: Vec<ResSet<R>>, before: R, after: R)
    requires
        effects@.len() >= 1,
        effects.affects(before, after),
    ensures
        after == effects@.last().value,
{
    let n = effects@.len();
    let between = choose|between: R|
        affects_in_order(effects@, (n - 1) as nat, before, between) && (
        #[trigger] effects@[n - 1].affects(between, after));
}

/// However many effects set the same resource, they can be applied in order to any state
/// of it.
pub proof fn lemma_sets_always_apply<R>(effects: Vec<ResSet<R>>, param: R)
    ensures
        effects.applies_to(param),
{
}

/// What [`ResSetWith`] does, written out for an effect whose function is known.
pub proof fn lemma_res_set_with<F, R>(effect: ResSetWith<F, R>, before: R, after: R) where
    F: FnOnce(R) -> R,
    R: Clone,

    ensures
        effect.applies_to(before) <==> forall|current: R|
            cloned(before, current) ==> call_requires(effect.f(), (current,)),
        effect.affects(before, after) <==> exists|current: R|
            cloned(before, current) && call_ensures(effect.f(), (current,), after),
{
}

} // verus!
