//! The effects that this library provides.

pub mod algebra;
pub mod error;
pub mod iter;
pub mod message;
pub mod resource;

pub use error::{
    affect_or_handle, AffectOrHandle, DefaultErrorHandler, ErrorContext, SystemChangeTick,
    SystemName,
};
pub use iter::{affect_many, AffectMany};
pub use message::{message_write, MessageWrite};
pub use resource::{res_set, res_set_with, ResSet, ResSetWith};
