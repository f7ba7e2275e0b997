//! Verified pieces of swift-bridge's intermediate representation: the
//! Swift-style `func` declaration syntax of `extern "Swift"` blocks, the
//! boxed/shared callback types (`Box<dyn FnOnce(..)>`, `Arc<dyn Fn(..)>`),
//! and the Swift wrapper code generated for Rust functions called from Swift.
//!
//! The functions that ask `syn` about Rust syntax (the rewrite of Swift-style
//! declarations and the parse of callback types) switch `proc-macro2` to its
//! own implementation for the whole process (`proc_macro2::fallback::force`):
//! inside a procedural macro, token streams built after such a call are
//! `proc-macro2`'s own rather than the compiler's.
use vstd::prelude::*;

pub mod text;
pub mod snake_case;
pub mod callback_sig;
pub mod bridged_type;
pub mod rust_syntax;
pub mod boxed_fn;
pub mod tokens;
pub mod swift_types;
pub mod swift_func;
pub mod swift_calls_rust;

verus! {

} // verus!
