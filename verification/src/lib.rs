//! Type-erased closures whose storage placement is decided by verified layout
//! rules. See [`inline_fn`].
pub mod inline_fn;
