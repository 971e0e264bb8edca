//! The trait that every effect implements.

use vstd::prelude::*;

verus! {

/// A state transition, held as a value.
///
/// An effect names the state it changes, and is applied to it by [`Effect::affect`]. That
/// call takes the effect by value, so an effect is applied once at most.
///
/// What an effect does is stated by two predicates. [`Effect::applies_to`] says to which
/// states it can be applied, and [`Effect::affects`] relates the state before the call to
/// the state after it. Most effects apply to every state and leave exactly one state
/// behind; an effect that calls a function it was given can promise no more than that
/// function does. An implementation that states neither applies to every state and
/// promises nothing of the state it leaves.
pub trait Effect: Sized {
    /// The state that this effect changes.
    type MutParam;

    /// Whether the effect can be applied to `param`.
    open spec fn applies_to(self, param: Self::MutParam) -> bool {
        true
    }

    /// Whether applying the effect to `before` can leave `after`.
    open spec fn affects(self, before: Self::MutParam, after: Self::MutParam) -> bool {
        true
    }

    /// Performs the state transition on the parameter.
    fn affect(self, param: &mut Self::MutParam)
        requires
            self.applies_to(*old(param)),
        ensures
            self.affects(*old(param), *final(param)),
    ;
}

} // verus!
