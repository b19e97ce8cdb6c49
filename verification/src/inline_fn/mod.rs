//! Type-erased closures that are sorted by whether they fit an inline buffer.
//!
//! Two types, same storage rules, different call contract. Pick by how the
//! closure treats the state it captured:
//!
//! | Closure does | Implements | Use |
//! | --- | --- | --- |
//! | only reads captured state | `Fn` | [`InlineFn`] |
//! | writes back into captured state | `FnMut` | [`InlineFn`] |
//! | moves captured state out | `FnOnce` | [`InlineFnOnce`] |
//!
//! Every closure is classified against a buffer of `S` bytes aligned to
//! [`BUFFER_ALIGN`]: it is placed inline when both its size and its alignment
//! fit, and boxed otherwise, unless boxing is switched off, in which case it is
//! refused. [`buffer`] holds the rules shared by both types.

pub mod buffer;
pub mod fn_mut;
pub mod fn_once;
pub mod label;

pub use buffer::{
    BUFFER_ALIGN, LARGE, Placement, SMALL, StoreError, check_boxing_allowed, check_buffer_size,
    choose_placement, is_fit,
};
pub use fn_mut::{IRunnable, InlineFn};
pub use fn_once::{IRunnableOnce, InlineFnOnce};
