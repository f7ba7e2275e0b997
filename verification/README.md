# swift_bridge_ir

Verified pieces of swift-bridge's intermediate representation, written in
Verus.

- `snake_case`: Swift names to Rust `snake_case`.
- `tokens`: token trees (the shape of a `proc_macro2::TokenStream`) and their
  text.
- `swift_types`: Swift type spellings (`UInt8`, `Optional<T>`,
  `UnsafePointer<T>`, ...) rewritten as Rust types.
- `swift_func`: the Swift-style declarations of `extern "Swift"` blocks
  (`func`, `func!(..)`, `static_func!(..)`) parsed and rewritten as Rust
  foreign functions.
- `callback_sig`, `boxed_fn`, `bridged_type`: callback types such as
  `Box<dyn FnOnce(A) -> B>` and the Swift, C and Rust code around them.
- `swift_calls_rust`: the Swift function generated for a Rust function.
- `rust_syntax`, `text`: what the library asks of `syn` and `proc-macro2`, and
  string helpers. Asking switches `proc-macro2` to its own implementation for
  the whole process (`proc_macro2::fallback::force`), so that the answers
  depend on the text alone; text that may hold a C-string literal (`c"..."`),
  on which `syn` 1 panics, is never handed over.

`app/` converts `proc_macro2` token streams to and from the library's token
trees and reports errors as `syn` errors.
