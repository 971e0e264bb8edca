//! Effects: state transitions as values.
//!
//! A function that decides what should change returns an [`Effect`] instead of changing
//! anything. The effect is applied later, once, to the state that it names in
//! [`Effect::MutParam`]. Until then it is a plain value: it can be built, compared,
//! combined with other effects and handed on together with an ordinary output.
//!
//! - [`effects`] holds effects that set a value or write a message, and the ways of
//!   making one effect of several: tuples, a choice of two, vectors and options.
//! - [`EffectOut`] pairs an effect with an output, so that functions which decide on
//!   effects can be chained; [`effect_composition`] holds the functions that say how the
//!   effects of two links of such a chain become one.
//! - [`system_combinators`] applies what such functions return.
//! - [`effect_derive`] writes the implementation of [`Effect`] for a struct or an enum
//!   whose fields are effects.

pub mod effect;
pub mod effect_composition;
pub mod effect_derive;
pub mod effect_out;
pub mod effects;
pub mod param_set;
pub mod prelude;
pub mod system_combinators;

pub use effect::Effect;
pub use effect_out::{effect_out, EffectOut};
pub use param_set::ParamSet;
