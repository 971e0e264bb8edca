//! The items that most users of this library need.

pub use either::Either;

pub use crate::effect::Effect;
pub use crate::effect_out::{effect_out, EffectOut};
pub use crate::effects::{
    affect_many, affect_or_handle, message_write, res_set, res_set_with, AffectMany,
    AffectOrHandle, DefaultErrorHandler, ErrorContext, MessageWrite, ResSet, ResSetWith,
    SystemChangeTick, SystemName,
};
pub use crate::param_set::ParamSet;
pub use crate::system_combinators::{affect, in_and_extend, in_and_then, in_and_then_compose};
