//! Callbacks bridged as `Box<dyn FnOnce(A, B) -> C>`, `Box<dyn Fn(A, B) -> C>`
//! or `Arc<dyn Fn(A, B) -> C>`, and the Swift, C and Rust code text that
//! swift-bridge generates for them.
use vstd::prelude::*;
use crate::bridged_type::{
    rendering_for, BridgedType, HostLang, TypeDeclarations, TypePosition, TypeRendering,
};
use crate::callback_sig::{
    bound_named, callback_parens_ok, check_callback_parens, parse_callback_signature, piece_end,
    spec_bounds_from, spec_callback_prefix, spec_trait_bounds,
    spec_callback_signature, spec_return_and_bounds, spec_trim_signature_end,
    strip_trailing_commas, trim_trailing_commas, BridgeableFnOwner, BridgeableFnTrait,
    BridgeableFnTraitBound,
};
use crate::rust_syntax::{
    all_primitive, c_string_start_at, fn_arg_types, holds_c_string_start, may_hold_c_string,
    primitive_type_text, spec_fn_arg_types, spec_type_tokens, type_tokens,
};
use crate::text::{
    arg_name, concat, concat_strings, decimal, is_whitespace, join, join_strings,
    find_from, lemma_concat_front, lemma_find_absent, lemma_find_first, lemma_find_from,
    lemma_join_avoids, lemma_trim_after_space, lemma_trim_before_space, make_arg_name,
    push_decimal, push_str, starts_with, trim, views,
};

verus! {

/// A bridged callback type: owner, closure trait, extra bounds, parameter
/// types and return type.
pub struct BridgeableBoxedFnOnce {
    pub owner: BridgeableFnOwner,
    pub trait_kind: BridgeableFnTrait,
    pub trait_bounds: Vec<BridgeableFnTraitBound>,
    /// The function's parameters.
    pub params: Vec<BridgedType>,
    /// The function's return type.
    pub ret: Box<BridgedType>,
}

/// Generic parameters that a Swift function needs for string arguments.
#[derive(Debug, Clone, Copy, PartialEq, Eq, Structural)]
pub enum SwiftFuncGenerics {
    String,
    Str,
}

pub open spec fn generic_bound(g: SwiftFuncGenerics) -> Seq<char> {
    match g {
        SwiftFuncGenerics::String => "GenericIntoRustString: IntoRustString"@,
        SwiftFuncGenerics::Str => "GenericToRustStr: ToRustStr"@,
    }
}

impl SwiftFuncGenerics {
    /// The generic parameter with its bound, as written in a Swift signature.
    pub fn as_bound(&self) -> (r: &'static str)
        ensures
            r@ == generic_bound(*self),
    {
        match self {
            SwiftFuncGenerics::String => "GenericIntoRustString: IntoRustString",
            SwiftFuncGenerics::Str => "GenericToRustStr: ToRustStr",
        }
    }
}

impl BridgeableBoxedFnOnce {
    /// Whether the registry knows how to render every parameter.
    pub open spec fn params_rendered(&self, types: TypeDeclarations) -> bool {
        forall|i: int| 0 <= i < self.params@.len() ==> types.describes(#[trigger] self.params@[i])
    }

    /// Whether the registry knows how to render every parameter and the return type.
    pub open spec fn rendered(&self, types: TypeDeclarations) -> bool {
        self.params_rendered(types) && types.describes(*self.ret)
    }

    /// The rendering of the `i`-th parameter.
    pub open spec fn param_rendering(&self, types: TypeDeclarations, i: int) -> TypeRendering {
        rendering_for(types, self.params@[i])
    }

    pub open spec fn spec_no_params_or_return(&self) -> bool {
        self.params@.len() == 0 && self.ret.spec_is_null()
    }

    /// Whether the callback takes no arguments and returns `()`.
    pub fn does_not_have_params_or_return(&self) -> (r: bool)
        ensures
            r == self.spec_no_params_or_return(),
    {
        self.params.len() == 0 && self.ret.is_null()
    }

    /// Whether the callback is a `Box<dyn FnOnce()>` with no arguments and no
    /// return value, which swift-bridge supports with a built-in type.
    pub fn uses_core_no_args_no_return_support(&self) -> (r: bool)
        ensures
            r == (self.owner == BridgeableFnOwner::Box && self.trait_kind == BridgeableFnTrait::FnOnce
                && self.spec_no_params_or_return()),
    {
        self.owner == BridgeableFnOwner::Box && self.trait_kind == BridgeableFnTrait::FnOnce
            && self.does_not_have_params_or_return()
    }

    /// Whether the closure trait is `FnOnce`.
    pub fn is_fn_once(&self) -> (r: bool)
        ensures
            r == (self.trait_kind == BridgeableFnTrait::FnOnce),
    {
        self.trait_kind == BridgeableFnTrait::FnOnce
    }

    pub open spec fn spec_c_params(&self, types: TypeDeclarations) -> Seq<char> {
        join(
            Seq::new(
                self.params@.len(),
                |i: int| self.param_rendering(types, i).c_type@ + " "@ + arg_name(i as nat),
            ),
            ", "@,
        )
    }

    /// The C parameter list: `Box<dyn FnOnce(u8, SomeRustType)>` becomes
    /// `uint8_t arg0, void* arg1`.
    pub fn params_to_c_types(&self, types: &TypeDeclarations) -> (r: String)
        requires
            self.params_rendered(*types),
        ensures
            r@ == self.spec_c_params(*types),
    {
        let mut parts: Vec<String> = Vec::new();
        let mut i: usize = 0;
        while i < self.params.len()
            invariant
                self.params_rendered(*types),
                i <= self.params@.len(),
                parts@.len() == i,
                forall|j: int|
                    0 <= j < i ==> #[trigger] parts@[j]@ == self.param_rendering(*types, j).c_type@
                        + " "@ + arg_name(j as nat),
            decreases self.params.len() - i,
        {
            assert(types.describes(self.params@[i as int]));
            let r = types.rendering_of(&self.params[i]).unwrap();
            let mut part = r.c_type.clone();
            push_str(&mut part, " ");
            let name = make_arg_name(i);
            push_str(&mut part, name.as_str());
            parts.push(part);
            i = i + 1;
        }
        assert(views(parts@) =~= Seq::new(
            self.params@.len(),
            |i: int| self.param_rendering(*types, i).c_type@ + " "@ + arg_name(i as nat),
        ));
        join_strings(&parts, ", ")
    }

    pub open spec fn spec_call_args(&self) -> Seq<char> {
        join(Seq::new(self.params@.len(), |i: int| arg_name(i as nat)), ", "@)
    }

    fn arg_names(&self) -> (r: Vec<String>)
        ensures
            views(r@) == Seq::new(self.params@.len(), |i: int| arg_name(i as nat)),
    {
        let mut parts: Vec<String> = Vec::new();
        let mut i: usize = 0;
        while i < self.params.len()
            invariant
                i <= self.params@.len(),
                parts@.len() == i,
                forall|j: int| 0 <= j < i ==> #[trigger] parts@[j]@ == arg_name(j as nat),
            decreases self.params.len() - i,
        {
            parts.push(make_arg_name(i));
            i = i + 1;
        }
        assert(views(parts@) =~= Seq::new(self.params@.len(), |i: int| arg_name(i as nat)));
        parts
    }

    /// The Swift call arguments `arg0, arg1, ... argN`.
    pub fn to_swift_call_args(&self) -> (r: String)
        ensures
            r@ == self.spec_call_args(),
    {
        let names = self.arg_names();
        join_strings(&names, ", ")
    }

    /// The Swift call arguments of a callback body: `arg0, arg1, ... argN`.
    pub fn swift_callback_call_args(&self) -> (r: String)
        ensures
            r@ == self.spec_call_args(),
    {
        let names = self.arg_names();
        join_strings(&names, ", ")
    }

    pub open spec fn spec_from_swift_to_rust_ffi_call_args(&self, types: TypeDeclarations) -> Seq<
        char,
    > {
        concat(
            Seq::new(
                self.params@.len(),
                |i: int|
                    ", "@ + self.param_rendering(types, i).swift_to_ffi_arg.spec_apply(
                        arg_name(i as nat),
                        i as nat,
                        Seq::empty(),
                    ),
            ),
        )
    }

    /// The arguments passed from Swift to Rust, each converted for the FFI
    /// boundary and preceded by `, `: `Box<dyn FnOnce(u8, SomeType)>` becomes
    /// `, arg0, { arg1.isOwned = false; arg1 }()`.
    pub fn to_from_swift_to_rust_ffi_call_args(&self, types: &TypeDeclarations) -> (r: String)
        requires
            self.params_rendered(*types),
        ensures
            r@ == self.spec_from_swift_to_rust_ffi_call_args(*types),
    {
        let mut parts: Vec<String> = Vec::new();
        let mut i: usize = 0;
        while i < self.params.len()
            invariant
                self.params_rendered(*types),
                i <= self.params@.len(),
                parts@.len() == i,
                forall|j: int|
                    0 <= j < i ==> #[trigger] parts@[j]@ == ", "@ + self.param_rendering(
                        *types,
                        j,
                    ).swift_to_ffi_arg.spec_apply(arg_name(j as nat), j as nat, Seq::empty()),
            decreases self.params.len() - i,
        {
            assert(types.describes(self.params@[i as int]));
            let r = types.rendering_of(&self.params[i]).unwrap();
            let name = make_arg_name(i);
            let no_path = String::new();
            let converted = r.swift_to_ffi_arg.apply(name.as_str(), i, no_path.as_str());
            let mut part = String::from_str(", ");
            push_str(&mut part, converted.as_str());
            parts.push(part);
            i = i + 1;
        }
        assert(views(parts@) =~= Seq::new(
            self.params@.len(),
            |i: int|
                ", "@ + self.param_rendering(*types, i).swift_to_ffi_arg.spec_apply(
                    arg_name(i as nat),
                    i as nat,
                    Seq::empty(),
                ),
        ));
        concat_strings(&parts)
    }

    pub open spec fn spec_swift_params(&self, types: TypeDeclarations, swift_host: bool) -> Seq<
        char,
    > {
        join(
            Seq::new(
                self.params@.len(),
                |i: int|
                    "_ "@ + arg_name(i as nat) + ": "@ + if swift_host {
                        self.param_rendering(types, i).swift_swift_arg@
                    } else {
                        self.param_rendering(types, i).swift_rust_arg@
                    },
            ),
            ", "@,
        )
    }

    fn swift_params(&self, types: &TypeDeclarations, swift_host: bool) -> (r: String)
        requires
            self.params_rendered(*types),
        ensures
            r@ == self.spec_swift_params(*types, swift_host),
    {
        let mut parts: Vec<String> = Vec::new();
        let mut i: usize = 0;
        while i < self.params.len()
            invariant
                self.params_rendered(*types),
                i <= self.params@.len(),
                parts@.len() == i,
                forall|j: int|
                    0 <= j < i ==> #[trigger] parts@[j]@ == "_ "@ + arg_name(j as nat) + ": "@
                        + if swift_host {
                        self.param_rendering(*types, j).swift_swift_arg@
                    } else {
                        self.param_rendering(*types, j).swift_rust_arg@
                    },
            decreases self.params.len() - i,
        {
            assert(types.describes(self.params@[i as int]));
            let r = types.rendering_of(&self.params[i]).unwrap();
            let mut part = String::from_str("_ ");
            let name = make_arg_name(i);
            push_str(&mut part, name.as_str());
            push_str(&mut part, ": ");
            if swift_host {
                push_str(&mut part, r.swift_swift_arg.as_str());
            } else {
                push_str(&mut part, r.swift_rust_arg.as_str());
            }
            parts.push(part);
            i = i + 1;
        }
        assert(views(parts@) =~= Seq::new(
            self.params@.len(),
            |i: int|
                "_ "@ + arg_name(i as nat) + ": "@ + if swift_host {
                    self.param_rendering(*types, i).swift_swift_arg@
                } else {
                    self.param_rendering(*types, i).swift_rust_arg@
                },
        ));
        join_strings(&parts, ", ")
    }

    /// The Swift parameters `_ arg0: UInt8, _ arg1: SomeType, ...` of a
    /// Rust-implemented callback.
    pub fn params_to_swift_types(&self, types: &TypeDeclarations, swift_bridge_path: &str) -> (r:
        String)
        requires
            self.params_rendered(*types),
        ensures
            r@ == self.spec_swift_params(*types, false),
    {
        self.swift_params(types, false)
    }

    /// The Swift parameters of a Swift-implemented callback, typed as their
    /// FFI representation.
    pub fn params_to_swift_ffi_types(&self, types: &TypeDeclarations, swift_bridge_path: &str) -> (r:
        String)
        requires
            self.params_rendered(*types),
        ensures
            r@ == self.spec_swift_params(*types, true),
    {
        self.swift_params(types, true)
    }

    pub open spec fn spec_swift_closure_type(&self, escaping: bool, types: TypeDeclarations) -> Seq<
        char,
    > {
        (if escaping {
            "@escaping "@
        } else {
            Seq::empty()
        }) + "("@ + join(
            Seq::new(self.params@.len(), |i: int| self.param_rendering(types, i).swift_rust_arg@),
            ", "@,
        ) + ") -> "@ + rendering_for(types, *self.ret).swift_rust_ret@
    }

    /// The Swift closure type `@escaping (UInt8, Bool) -> UInt8`.
    pub fn to_swift_closure_type(
        &self,
        escaping: bool,
        types: &TypeDeclarations,
        swift_bridge_path: &str,
    ) -> (r: String)
        requires
            self.rendered(*types),
        ensures
            r@ == self.spec_swift_closure_type(escaping, *types),
    {
        let mut parts: Vec<String> = Vec::new();
        let mut i: usize = 0;
        while i < self.params.len()
            invariant
                self.params_rendered(*types),
                i <= self.params@.len(),
                parts@.len() == i,
                forall|j: int|
                    0 <= j < i ==> #[trigger] parts@[j]@ == self.param_rendering(
                        *types,
                        j,
                    ).swift_rust_arg@,
            decreases self.params.len() - i,
        {
            assert(types.describes(self.params@[i as int]));
            let r = types.rendering_of(&self.params[i]).unwrap();
            parts.push(r.swift_rust_arg.clone());
            i = i + 1;
        }
        assert(views(parts@) =~= Seq::new(
            self.params@.len(),
            |i: int| self.param_rendering(*types, i).swift_rust_arg@,
        ));
        let params = join_strings(&parts, ", ");
        let ret = types.rendering_of(&self.ret).unwrap();
        let mut out = String::new();
        if escaping {
            push_str(&mut out, "@escaping ");
        }
        push_str(&mut out, "(");
        push_str(&mut out, params.as_str());
        push_str(&mut out, ") -> ");
        push_str(&mut out, ret.swift_rust_ret.as_str());
        out
    }

    pub open spec fn spec_swift_type(&self, type_pos: TypePosition, types: TypeDeclarations) -> Seq<
        char,
    > {
        match type_pos {
            TypePosition::FnArg(HostLang::Rust, _) => self.spec_swift_closure_type(true, types),
            TypePosition::FnReturn(HostLang::Rust) => self.spec_swift_closure_type(false, types),
            _ => "UnsafeMutableRawPointer"@,
        }
    }

    /// The Swift type of the callback at `type_pos`: an escaping closure for
    /// an argument of a Rust function, a closure for its return value, and an
    /// opaque pointer everywhere else.
    pub fn to_swift_type(
        &self,
        type_pos: TypePosition,
        types: &TypeDeclarations,
        swift_bridge_path: &str,
    ) -> (r: String)
        requires
            self.rendered(*types),
        ensures
            r@ == self.spec_swift_type(type_pos, *types),
    {
        match type_pos {
            TypePosition::FnArg(host_lang, _) => {
                if host_lang.is_rust() {
                    self.to_swift_closure_type(true, types, swift_bridge_path)
                } else {
                    String::from_str("UnsafeMutableRawPointer")
                }
            },
            TypePosition::FnReturn(host_lang) => {
                if host_lang.is_rust() {
                    self.to_swift_closure_type(false, types, swift_bridge_path)
                } else {
                    String::from_str("UnsafeMutableRawPointer")
                }
            },
            _ => String::from_str("UnsafeMutableRawPointer"),
        }
    }

    pub open spec fn spec_ffi_value_to_swift_value(&self, param_idx: nat) -> Seq<char> {
        if self.params@.len() > 0 && !self.spec_no_params_or_return() {
            "{ "@ + self.spec_call_args() + " in cb"@ + decimal(param_idx) + ".call("@
                + self.spec_call_args() + ") }"@
        } else {
            "{ cb"@ + decimal(param_idx) + ".call() }"@
        }
    }

    /// The Swift closure that forwards to callback object `cb<idx>`, for the
    /// callback passed as argument `idx`: `{ arg0, arg1 in cb2.call(arg0, arg1) }`.
    pub fn convert_ffi_value_to_swift_value(&self, type_pos: TypePosition) -> (r: String)
        requires
            type_pos is FnArg,
        ensures
            type_pos matches TypePosition::FnArg(_, param_idx) && r@
                == self.spec_ffi_value_to_swift_value(param_idx as nat),
    {
        match type_pos {
            TypePosition::FnArg(_, param_idx) => {
                if self.does_not_have_params_or_return() {
                    let mut r = String::from_str("{ cb");
                    push_decimal(&mut r, param_idx);
                    push_str(&mut r, ".call() }");
                    r
                } else if self.params.len() > 0 {
                    let args = self.to_swift_call_args();
                    let mut r = String::from_str("{ ");
                    push_str(&mut r, args.as_str());
                    push_str(&mut r, " in cb");
                    push_decimal(&mut r, param_idx);
                    push_str(&mut r, ".call(");
                    push_str(&mut r, args.as_str());
                    push_str(&mut r, ") }");
                    r
                } else {
                    let mut r = String::from_str("{ cb");
                    push_decimal(&mut r, param_idx);
                    push_str(&mut r, ".call() }");
                    r
                }
            },
            _ => String::new(),
        }
    }

    pub open spec fn spec_class_name(
        prefix: Seq<char>,
        maybe_associated_ty: Seq<char>,
        fn_name: Seq<char>,
        idx: nat,
    ) -> Seq<char> {
        prefix + maybe_associated_ty + "$"@ + fn_name + "$param"@ + decimal(idx)
    }

    fn class_name(prefix: &str, maybe_associated_ty: &str, fn_name: &str, idx: usize) -> (r: String)
        ensures
            r@ == Self::spec_class_name(prefix@, maybe_associated_ty@, fn_name@, idx as nat),
    {
        let mut r = String::from_str(prefix);
        push_str(&mut r, maybe_associated_ty);
        push_str(&mut r, "$");
        push_str(&mut r, fn_name);
        push_str(&mut r, "$param");
        push_decimal(&mut r, idx);
        r
    }

    /// The Swift class that wraps a Rust callback passed as parameter `idx`
    /// of `fn_name`.
    pub fn rust_to_swift_callback_class_name(
        &self,
        maybe_associated_ty: &str,
        fn_name: &str,
        idx: usize,
    ) -> (r: String)
        ensures
            r@ == Self::spec_class_name(
                if self.trait_kind == BridgeableFnTrait::FnOnce {
                    "__private__RustFnOnceCallback"@
                } else {
                    "__private__RustFnCallback"@
                },
                maybe_associated_ty@,
                fn_name@,
                idx as nat,
            ),
    {
        if self.trait_kind == BridgeableFnTrait::FnOnce {
            Self::class_name("__private__RustFnOnceCallback", maybe_associated_ty, fn_name, idx)
        } else {
            Self::class_name("__private__RustFnCallback", maybe_associated_ty, fn_name, idx)
        }
    }

    /// The Swift class that wraps a Swift callback passed as parameter `idx`
    /// of `fn_name`.
    pub fn swift_to_rust_callback_class_name(
        &self,
        maybe_associated_ty: &str,
        fn_name: &str,
        idx: usize,
    ) -> (r: String)
        ensures
            r@ == Self::spec_class_name(
                "__private__SwiftFnCallback"@,
                maybe_associated_ty@,
                fn_name@,
                idx as nat,
            ),
    {
        Self::class_name("__private__SwiftFnCallback", maybe_associated_ty, fn_name, idx)
    }

    pub open spec fn spec_params_from_ffi_conversions(
        &self,
        types: TypeDeclarations,
        path: Seq<char>,
    ) -> Seq<char> {
        join(
            Seq::new(
                self.params@.len(),
                |i: int|
                    "let "@ + arg_name(i as nat) + " = "@ + self.param_rendering(
                        types,
                        i,
                    ).ffi_to_swift_arg.spec_apply(arg_name(i as nat), i as nat, path),
            ),
            "\n    "@,
        )
    }

    /// The Swift statements `let argN = <argN converted from FFI>` that open a
    /// Swift callback body, one per line.
    pub fn swift_callback_params_from_ffi_conversions(
        &self,
        types: &TypeDeclarations,
        swift_bridge_path: &str,
    ) -> (r: String)
        requires
            self.params_rendered(*types),
        ensures
            r@ == self.spec_params_from_ffi_conversions(*types, swift_bridge_path@),
    {
        let mut parts: Vec<String> = Vec::new();
        let mut i: usize = 0;
        while i < self.params.len()
            invariant
                self.params_rendered(*types),
                i <= self.params@.len(),
                parts@.len() == i,
                forall|j: int|
                    0 <= j < i ==> #[trigger] parts@[j]@ == "let "@ + arg_name(j as nat) + " = "@
                        + self.param_rendering(*types, j).ffi_to_swift_arg.spec_apply(
                        arg_name(j as nat),
                        j as nat,
                        swift_bridge_path@,
                    ),
            decreases self.params.len() - i,
        {
            assert(types.describes(self.params@[i as int]));
            let r = types.rendering_of(&self.params[i]).unwrap();
            let name = make_arg_name(i);
            let converted = r.ffi_to_swift_arg.apply(name.as_str(), i, swift_bridge_path);
            let mut part = String::from_str("let ");
            push_str(&mut part, name.as_str());
            push_str(&mut part, " = ");
            push_str(&mut part, converted.as_str());
            parts.push(part);
            i = i + 1;
        }
        assert(views(parts@) =~= Seq::new(
            self.params@.len(),
            |i: int|
                "let "@ + arg_name(i as nat) + " = "@ + self.param_rendering(
                    *types,
                    i,
                ).ffi_to_swift_arg.spec_apply(arg_name(i as nat), i as nat, swift_bridge_path@),
        ));
        join_strings(&parts, "\n    ")
    }

    pub open spec fn spec_callback_return(&self, expression: Seq<char>, types: TypeDeclarations) -> Seq<
        char,
    > {
        if self.ret.spec_is_null() {
            expression
        } else {
            rendering_for(types, *self.ret).swift_to_ffi_ret.spec_apply(expression, 0, Seq::empty())
        }
    }

    /// What a Swift callback body returns: the expression itself for `()`,
    /// otherwise the expression converted for the FFI boundary.
    pub fn swift_callback_return(&self, expression: &str, types: &TypeDeclarations) -> (r: String)
        requires
            self.ret.spec_is_null() || types.describes(*self.ret),
        ensures
            r@ == self.spec_callback_return(expression@, *types),
    {
        if self.ret.is_null() {
            String::from_str(expression)
        } else {
            let r = types.rendering_of(&self.ret).unwrap();
            let no_path = String::new();
            r.swift_to_ffi_ret.apply(expression, 0, no_path.as_str())
        }
    }

    /// Whether some parameter holds an owned `String`.
    pub open spec fn spec_needs_string_generic(&self, types: TypeDeclarations) -> bool {
        exists|i: int| 0 <= i < self.params@.len() && #[trigger] self.param_rendering(types, i).owned_string
    }

    /// Whether some parameter holds a `&str` and no owned `String`.
    pub open spec fn spec_needs_str_generic(&self, types: TypeDeclarations) -> bool {
        exists|i: int|
            0 <= i < self.params@.len() && !#[trigger] self.param_rendering(types, i).owned_string
                && self.param_rendering(types, i).ref_string
    }

    pub open spec fn spec_swift_generics(&self, types: TypeDeclarations) -> Seq<char> {
        let s = self.spec_needs_string_generic(types);
        let t = self.spec_needs_str_generic(types);
        if !s && !t {
            Seq::empty()
        } else if s && t {
            "<"@ + generic_bound(SwiftFuncGenerics::String) + ", "@ + generic_bound(
                SwiftFuncGenerics::Str,
            ) + ">"@
        } else if s {
            "<"@ + generic_bound(SwiftFuncGenerics::String) + ">"@
        } else {
            "<"@ + generic_bound(SwiftFuncGenerics::Str) + ">"@
        }
    }

    /// The generic parameters of the Swift side for string arguments, such as
    /// `<GenericIntoRustString: IntoRustString>`; empty when none is needed.
    pub fn maybe_swift_generics(&self, types: &TypeDeclarations) -> (r: String)
        requires
            self.params_rendered(*types),
        ensures
            r@ == self.spec_swift_generics(*types),
    {
        let mut has_string = false;
        let mut has_str = false;
        let mut i: usize = 0;
        while i < self.params.len()
            invariant
                self.params_rendered(*types),
                i <= self.params@.len(),
                has_string == exists|j: int|
                    0 <= j < i && #[trigger] self.param_rendering(*types, j).owned_string,
                has_str == exists|j: int|
                    0 <= j < i && !#[trigger] self.param_rendering(*types, j).owned_string
                        && self.param_rendering(*types, j).ref_string,
            decreases self.params.len() - i,
        {
            assert(types.describes(self.params@[i as int]));
            let r = types.rendering_of(&self.params[i]).unwrap();
            assert(self.param_rendering(*types, i as int) == *r);
            if r.owned_string {
                has_string = true;
            } else if r.ref_string {
                has_str = true;
            }
            i = i + 1;
        }
        if !has_string && !has_str {
            return String::new();
        }
        let mut out = String::from_str("<");
        if has_string {
            push_str(&mut out, SwiftFuncGenerics::String.as_bound());
            if has_str {
                push_str(&mut out, ", ");
            }
        }
        if has_str {
            push_str(&mut out, SwiftFuncGenerics::Str.as_bound());
        }
        push_str(&mut out, ">");
        out
    }
}

pub open spec fn trait_text(k: BridgeableFnTrait) -> Seq<char> {
    match k {
        BridgeableFnTrait::FnOnce => "FnOnce"@,
        BridgeableFnTrait::Fn => "Fn"@,
    }
}

pub open spec fn bound_text(b: BridgeableFnTraitBound) -> Seq<char> {
    match b {
        BridgeableFnTraitBound::Send => "Send"@,
        BridgeableFnTraitBound::Sync => "Sync"@,
        BridgeableFnTraitBound::Static => "'static"@,
    }
}

fn trait_ident(k: BridgeableFnTrait) -> (r: &'static str)
    ensures
        r@ == trait_text(k),
{
    match k {
        BridgeableFnTrait::FnOnce => "FnOnce",
        BridgeableFnTrait::Fn => "Fn",
    }
}

fn bound_tokens(b: BridgeableFnTraitBound) -> (r: &'static str)
    ensures
        r@ == bound_text(b),
{
    match b {
        BridgeableFnTraitBound::Send => "Send",
        BridgeableFnTraitBound::Sync => "Sync",
        BridgeableFnTraitBound::Static => "'static",
    }
}

/// The parts of a parsed callback: owner, trait, bounds, parameter type
/// spellings and return type spelling.
pub open spec fn spec_from_str_tokens(s: Seq<char>) -> Option<
    (
        BridgeableFnOwner,
        BridgeableFnTrait,
        Seq<BridgeableFnTraitBound>,
        Seq<Seq<char>>,
        Seq<char>,
    ),
> {
    match spec_callback_signature(s) {
        None => None,
        Some((o, k, b, args, ret)) => Some(
            (
                o,
                k,
                b,
                spec_fn_arg_types(args).unwrap(),
                match ret {
                    Some(r) => spec_type_tokens(r).unwrap(),
                    None => "()"@,
                },
            ),
        ),
    }
}

/// Whether `syn` accepts the argument list and the return type of the
/// callback signature in `s`, neither of which may hold a C-string literal
/// (`syn` panics on those): the inputs on which `from_str_tokens` is defined.
pub open spec fn from_str_tokens_defined(s: Seq<char>) -> bool {
    match spec_callback_signature(s) {
        None => true,
        Some((_, _, _, args, ret)) => !may_hold_c_string(args) && spec_fn_arg_types(args) is Some
            && (ret matches Some(r) ==> !may_hold_c_string(r) && spec_type_tokens(r) is Some),
    }
}

impl BridgeableBoxedFnOnce {
    /// The spellings of the parameter types.
    pub open spec fn param_types(&self) -> Seq<Seq<char>> {
        self.params@.map_values(|t: BridgedType| t.rust_type@)
    }

    pub open spec fn spec_parts(&self) -> (
        BridgeableFnOwner,
        BridgeableFnTrait,
        Seq<BridgeableFnTraitBound>,
        Seq<Seq<char>>,
        Seq<char>,
    ) {
        (self.owner, self.trait_kind, self.trait_bounds@, self.param_types(), self.ret.rust_type@)
    }

    /// Parses the printed tokens of a callback type, such as
    /// `Box < dyn FnOnce (u8) -> u8 + Send >`. Every Rust type spelling is
    /// accepted as a parameter or return type; whether swift-bridge can render
    /// it is decided by the rendering methods, which look it up in `types`.
    /// It switches `proc-macro2` to its own implementation for the rest of the
    /// process (see `rust_syntax`).
    pub fn from_str_tokens(string: &str, types: &TypeDeclarations) -> (r: Option<Self>)
        requires
            callback_parens_ok(string@),
            from_str_tokens_defined(string@),
        ensures
            r matches Some(f) ==> spec_from_str_tokens(string@) == Some(f.spec_parts()),
            r is None ==> spec_from_str_tokens(string@) is None,
    {
        let sig = match parse_callback_signature(string) {
            Some(sig) => sig,
            None => return None,
        };
        let arg_types = match fn_arg_types(sig.args.as_str()) {
            Some(a) => a,
            None => return None,
        };
        let ret = match &sig.ret {
            Some(r) => match type_tokens(r.as_str()) {
                Some(t) => BridgedType::new_with_type(t.as_str()),
                None => return None,
            },
            None => BridgedType::null(),
        };
        let mut params: Vec<BridgedType> = Vec::new();
        let mut i: usize = 0;
        while i < arg_types.len()
            invariant
                i <= arg_types@.len(),
                params@.len() == i,
                forall|j: int| 0 <= j < i ==> #[trigger] params@[j].rust_type@ == arg_types@[j]@,
            decreases arg_types.len() - i,
        {
            params.push(BridgedType::new_with_type(arg_types[i].as_str()));
            i = i + 1;
        }
        let f = BridgeableBoxedFnOnce {
            owner: sig.owner,
            trait_kind: sig.trait_kind,
            trait_bounds: sig.trait_bounds,
            params,
            ret: Box::new(ret),
        };
        assert(f.param_types() =~= views(arg_types@));
        proof {
            reveal_strlit("()");
        }
        Some(f)
    }

    /// `from_str_tokens` on every input: `None` where the parentheses of the
    /// signature are out of order or `syn` rejects its argument list or
    /// return type.
    pub fn from_str_tokens_checked(string: &str, types: &TypeDeclarations) -> (r: Option<Self>)
        ensures
            r matches Some(f) ==> callback_parens_ok(string@) && from_str_tokens_defined(string@)
                && spec_from_str_tokens(string@) == Some(f.spec_parts()),
            r is None ==> !callback_parens_ok(string@) || !from_str_tokens_defined(string@)
                || spec_from_str_tokens(string@) is None,
            forall|ns: Seq<Seq<char>>|
                #![trigger join(ns, " , "@)]
                spec_callback_signature(string@) matches Some((o, k, b, a, Some(rt))) ==> (
                callback_parens_ok(string@) && all_primitive(ns) && a == join(ns, " , "@)
                    && primitive_type_text(rt) ==> (r matches Some(f) && f.spec_parts() == (
                    o,
                    k,
                    b,
                    ns,
                    rt,
                ))),
    {
        proof {
            lemma_primitive_lists_hold_no_c_string();
        }
        if !check_callback_parens(string) {
            return None;
        }
        match parse_callback_signature(string) {
            None => None,
            Some(sig) => {
                if holds_c_string_start(sig.args.as_str()) {
                    return None;
                }
                let arg_types = fn_arg_types(sig.args.as_str());
                if arg_types.is_none() {
                    return None;
                }
                let ret_tokens = match &sig.ret {
                    Some(r) => {
                        if holds_c_string_start(r.as_str()) {
                            return None;
                        }
                        let t = type_tokens(r.as_str());
                        if t.is_none() {
                            return None;
                        }
                        t
                    },
                    None => None,
                };
                let res = Self::from_str_tokens(string, types);
                proof {
                    reveal_strlit("()");
                }
                res
            },
        }
    }

    pub open spec fn spec_bounds_suffix(&self) -> Seq<char> {
        concat(
            Seq::new(self.trait_bounds@.len(), |i: int| " + "@ + bound_text(self.trait_bounds@[i])),
        )
    }

    pub open spec fn spec_dyn_type(&self, types: TypeDeclarations) -> Seq<char> {
        "dyn "@ + trait_text(self.trait_kind) + " ("@ + join(
            Seq::new(self.params@.len(), |i: int| self.param_rendering(types, i).rust_type_path@),
            " , "@,
        ) + ") -> "@ + rendering_for(types, *self.ret).rust_type_path@ + self.spec_bounds_suffix()
    }

    pub open spec fn spec_rust_type_path(&self, types: TypeDeclarations) -> Seq<char> {
        match self.owner {
            BridgeableFnOwner::Box => "Box < "@ + self.spec_dyn_type(types) + " >"@,
            BridgeableFnOwner::Arc => "std :: sync :: Arc < "@ + self.spec_dyn_type(types) + " >"@,
        }
    }

    fn bounds_suffix(&self) -> (r: String)
        ensures
            r@ == self.spec_bounds_suffix(),
    {
        let mut parts: Vec<String> = Vec::new();
        let mut i: usize = 0;
        while i < self.trait_bounds.len()
            invariant
                i <= self.trait_bounds@.len(),
                parts@.len() == i,
                forall|j: int|
                    0 <= j < i ==> #[trigger] parts@[j]@ == " + "@ + bound_text(
                        self.trait_bounds@[j],
                    ),
            decreases self.trait_bounds.len() - i,
        {
            let mut part = String::from_str(" + ");
            push_str(&mut part, bound_tokens(self.trait_bounds[i]));
            parts.push(part);
            i = i + 1;
        }
        assert(views(parts@) =~= Seq::new(
            self.trait_bounds@.len(),
            |i: int| " + "@ + bound_text(self.trait_bounds@[i]),
        ));
        concat_strings(&parts)
    }

    /// The Rust type of the callback, `Box<dyn FnOnce(A, B) -> C + Send>` (or
    /// `std::sync::Arc<dyn Fn(..) -> ..>`), as its tokens print:
    /// `Box < dyn FnOnce (A , B) -> C + Send >`.
    pub fn to_rust_type_path(&self, types: &TypeDeclarations) -> (r: String)
        requires
            self.rendered(*types),
        ensures
            r@ == self.spec_rust_type_path(*types),
    {
        let mut parts: Vec<String> = Vec::new();
        let mut i: usize = 0;
        while i < self.params.len()
            invariant
                self.params_rendered(*types),
                i <= self.params@.len(),
                parts@.len() == i,
                forall|j: int|
                    0 <= j < i ==> #[trigger] parts@[j]@ == self.param_rendering(
                        *types,
                        j,
                    ).rust_type_path@,
            decreases self.params.len() - i,
        {
            assert(types.describes(self.params@[i as int]));
            let r = types.rendering_of(&self.params[i]).unwrap();
            parts.push(r.rust_type_path.clone());
            i = i + 1;
        }
        assert(views(parts@) =~= Seq::new(
            self.params@.len(),
            |i: int| self.param_rendering(*types, i).rust_type_path@,
        ));
        let args = join_strings(&parts, " , ");
        let ret = types.rendering_of(&self.ret).unwrap();
        let bounds = self.bounds_suffix();
        let mut out = match self.owner {
            BridgeableFnOwner::Box => String::from_str("Box < "),
            BridgeableFnOwner::Arc => String::from_str("std :: sync :: Arc < "),
        };
        push_str(&mut out, "dyn ");
        push_str(&mut out, trait_ident(self.trait_kind));
        push_str(&mut out, " (");
        push_str(&mut out, args.as_str());
        push_str(&mut out, ") -> ");
        push_str(&mut out, ret.rust_type_path.as_str());
        push_str(&mut out, bounds.as_str());
        push_str(&mut out, " >");
        out
    }

    /// The FFI type of a Rust callback handed to Swift: a raw pointer to the
    /// boxed callback, `*mut Box<dyn FnOnce(A) -> B>`.
    pub fn to_ffi_compatible_rust_type(&self, types: &TypeDeclarations) -> (r: String)
        requires
            self.rendered(*types),
        ensures
            r@ == "*mut "@ + self.spec_rust_type_path(*types),
    {
        let path = self.to_rust_type_path(types);
        let mut out = String::from_str("*mut ");
        push_str(&mut out, path.as_str());
        out
    }

    /// Moves a Rust callback `expression` to the heap and returns the raw
    /// pointer handed to Swift.
    pub fn convert_rust_value_to_ffi_compatible_value(
        &self,
        expression: &str,
        types: &TypeDeclarations,
    ) -> (r: String)
        requires
            self.rendered(*types),
        ensures
            r@ == "Box::into_raw(Box::new("@ + expression@ + ")) as *mut "@
                + self.spec_rust_type_path(*types),
    {
        let path = self.to_rust_type_path(types);
        let mut out = String::from_str("Box::into_raw(Box::new(");
        push_str(&mut out, expression);
        push_str(&mut out, ")) as *mut ");
        push_str(&mut out, path.as_str());
        out
    }

    /// The FFI type of a Swift callback handed to Rust: an opaque pointer.
    pub fn to_swift_to_rust_ffi_compatible_rust_type(&self) -> (r: String)
        ensures
            r@ == "*mut std::ffi::c_void"@,
    {
        String::from_str("*mut std::ffi::c_void")
    }

    pub open spec fn spec_ffi_param(&self, types: TypeDeclarations, path: Seq<char>, i: int) -> Seq<
        char,
    > {
        arg_name(i as nat) + ": "@ + self.param_rendering(types, i).ffi_rust_type.spec_apply(
            Seq::empty(),
            i as nat,
            path,
        )
    }

    /// Each parameter with its FFI-compatible Rust type:
    /// `Box<dyn FnOnce(u8, SomeType)>` gives `arg0: u8`, `arg1: *mut super::SomeType`.
    pub fn params_to_ffi_compatible_rust_types(
        &self,
        swift_bridge_path: &str,
        types: &TypeDeclarations,
    ) -> (r: Vec<String>)
        requires
            self.params_rendered(*types),
        ensures
            views(r@) == Seq::new(
                self.params@.len(),
                |i: int| self.spec_ffi_param(*types, swift_bridge_path@, i),
            ),
    {
        let mut parts: Vec<String> = Vec::new();
        let mut i: usize = 0;
        while i < self.params.len()
            invariant
                self.params_rendered(*types),
                i <= self.params@.len(),
                parts@.len() == i,
                forall|j: int|
                    0 <= j < i ==> #[trigger] parts@[j]@ == self.spec_ffi_param(
                        *types,
                        swift_bridge_path@,
                        j,
                    ),
            decreases self.params.len() - i,
        {
            assert(types.describes(self.params@[i as int]));
            let r = types.rendering_of(&self.params[i]).unwrap();
            let no_expr = String::new();
            let ty = r.ffi_rust_type.apply(no_expr.as_str(), i, swift_bridge_path);
            let mut part = make_arg_name(i);
            push_str(&mut part, ": ");
            push_str(&mut part, ty.as_str());
            parts.push(part);
            i = i + 1;
        }
        assert(views(parts@) =~= Seq::new(
            self.params@.len(),
            |i: int| self.spec_ffi_param(*types, swift_bridge_path@, i),
        ));
        parts
    }

    /// The same list as `params_to_ffi_compatible_rust_types`, used for the
    /// parameters of the `extern` function that calls a Swift callback.
    pub fn params_to_ffi_compatible_rust_arg_names_and_types(
        &self,
        swift_bridge_path: &str,
        types: &TypeDeclarations,
    ) -> (r: Vec<String>)
        requires
            self.params_rendered(*types),
        ensures
            views(r@) == Seq::new(
                self.params@.len(),
                |i: int| self.spec_ffi_param(*types, swift_bridge_path@, i),
            ),
    {
        self.params_to_ffi_compatible_rust_types(swift_bridge_path, types)
    }

    pub open spec fn spec_rust_call_arg(&self, types: TypeDeclarations, path: Seq<char>, i: int) -> Seq<
        char,
    > {
        self.param_rendering(types, i).ffi_to_rust.spec_apply(arg_name(i as nat), i as nat, path)
    }

    /// Each FFI argument converted to its Rust type, such as `arg0` and
    /// `unsafe { *Box::from_raw(arg1) }`.
    pub fn to_rust_call_args(&self, swift_bridge_path: &str, types: &TypeDeclarations) -> (r: Vec<
        String,
    >)
        requires
            self.params_rendered(*types),
        ensures
            views(r@) == Seq::new(
                self.params@.len(),
                |i: int| self.spec_rust_call_arg(*types, swift_bridge_path@, i),
            ),
    {
        let mut parts: Vec<String> = Vec::new();
        let mut i: usize = 0;
        while i < self.params.len()
            invariant
                self.params_rendered(*types),
                i <= self.params@.len(),
                parts@.len() == i,
                forall|j: int|
                    0 <= j < i ==> #[trigger] parts@[j]@ == self.spec_rust_call_arg(
                        *types,
                        swift_bridge_path@,
                        j,
                    ),
            decreases self.params.len() - i,
        {
            assert(types.describes(self.params@[i as int]));
            let r = types.rendering_of(&self.params[i]).unwrap();
            let name = make_arg_name(i);
            parts.push(r.ffi_to_rust.apply(name.as_str(), i, swift_bridge_path));
            i = i + 1;
        }
        assert(views(parts@) =~= Seq::new(
            self.params@.len(),
            |i: int| self.spec_rust_call_arg(*types, swift_bridge_path@, i),
        ));
        parts
    }
}

impl BridgeableBoxedFnOnce {
    pub open spec fn spec_ffi_arg(&self, types: TypeDeclarations, path: Seq<char>, i: int) -> Seq<
        char,
    > {
        self.param_rendering(types, i).rust_to_ffi.spec_apply(arg_name(i as nat), i as nat, path)
    }

    /// `, <items joined by ", ">`, or nothing when there are no items.
    pub open spec fn comma_list(items: Seq<Seq<char>>) -> Seq<char> {
        if items.len() == 0 {
            Seq::empty()
        } else {
            ", "@ + join(items, ", "@)
        }
    }

    /// The Swift call inside the Rust closure, with its result converted to
    /// Rust when the callback returns a value.
    pub open spec fn spec_call_swift(
        &self,
        call_fn_ident: Seq<char>,
        idx: nat,
        path: Seq<char>,
        types: TypeDeclarations,
    ) -> Seq<char> {
        let maybe_args = Self::comma_list(
            Seq::new(self.params@.len(), |i: int| self.spec_ffi_arg(types, path, i)),
        );
        let call = "unsafe { "@ + call_fn_ident + "(__swift_bridge_callback"@ + decimal(idx)
            + ".ptr()"@ + maybe_args + ") }"@;
        if self.ret.spec_is_null() {
            call + ";"@
        } else {
            "let __swift_bridge_ret = "@ + call + ";\n"@ + rendering_for(
                types,
                *self.ret,
            ).ffi_to_rust.spec_apply("__swift_bridge_ret"@, 0, path)
        }
    }

    pub open spec fn spec_guard_impls(&self, guard: Seq<char>) -> Seq<char> {
        (if self.trait_bounds@.contains(BridgeableFnTraitBound::Send) {
            "unsafe impl Send for "@ + guard + " {}\n"@
        } else {
            Seq::empty()
        }) + (if self.trait_bounds@.contains(BridgeableFnTraitBound::Sync) {
            "unsafe impl Sync for "@ + guard + " {}\n"@
        } else {
            Seq::empty()
        })
    }

    /// The `extern "C"` block declaring the Swift functions that call and
    /// free the callback.
    pub open spec fn spec_extern_block(
        &self,
        call_link_name: Seq<char>,
        free_link_name: Seq<char>,
        call_fn_ident: Seq<char>,
        free_fn_ident: Seq<char>,
        path: Seq<char>,
        types: TypeDeclarations,
    ) -> Seq<char> {
        let maybe_params = Self::comma_list(
            Seq::new(self.params@.len(), |i: int| self.spec_ffi_param(types, path, i)),
        );
        let maybe_ret = if self.ret.spec_is_null() {
            Seq::empty()
        } else {
            " -> "@ + rendering_for(types, *self.ret).ffi_rust_type.spec_apply(
                Seq::empty(),
                0,
                path,
            )
        };
        "extern \"C\" {\n#[link_name = \""@ + call_link_name + "\"]\nfn "@ + call_fn_ident
            + "(callback: *mut std::ffi::c_void"@ + maybe_params + ")"@ + maybe_ret
            + ";\n#[link_name = \""@ + free_link_name + "\"]\nfn "@ + free_fn_ident
            + "(callback: *mut std::ffi::c_void);\n}\n"@
    }

    /// The guard type that frees the Swift callback when dropped.
    pub open spec fn spec_guard_block(&self, free_fn_ident: Seq<char>, idx: nat) -> Seq<char> {
        let guard = "__SwiftBridgeCallbackGuard"@ + decimal(idx);
        "struct "@ + guard + " {\nptr: *mut std::ffi::c_void,\n}\n"@ + self.spec_guard_impls(guard)
            + "impl "@ + guard
            + " {\nfn ptr(&self) -> *mut std::ffi::c_void {\nself.ptr\n}\n}\nimpl Drop for "@
            + guard + " {\nfn drop(&mut self) {\nunsafe { "@ + free_fn_ident
            + "(self.ptr) }\n}\n}\n"@
    }

    /// The guard holding `expression`, and the closure that calls Swift.
    pub open spec fn spec_closure_tail(
        &self,
        expression: Seq<char>,
        call_fn_ident: Seq<char>,
        idx: nat,
        path: Seq<char>,
        types: TypeDeclarations,
    ) -> Seq<char> {
        let closure = "move |"@ + self.spec_call_args() + "| {\n"@ + self.spec_call_swift(
            call_fn_ident,
            idx,
            path,
            types,
        ) + "\n}"@;
        "let __swift_bridge_callback"@ + decimal(idx) + " = __SwiftBridgeCallbackGuard"@
            + decimal(idx) + " { ptr: "@ + expression + " };\n"@ + match self.owner {
            BridgeableFnOwner::Box => "Box::new("@,
            BridgeableFnOwner::Arc => "std::sync::Arc::new("@,
        } + closure + ") as "@ + self.spec_rust_type_path(types)
    }

    /// The Rust block that turns the Swift callback pointer `expression` into
    /// a Rust closure of the callback's type: it declares the Swift call and
    /// free functions, a guard that frees the Swift callback when dropped
    /// (`Send`/`Sync` when the callback type is), and a closure that calls
    /// Swift with its arguments converted for the FFI boundary. The link
    /// names are written between quotes as they are.
    pub open spec fn spec_closure_expression(
        &self,
        expression: Seq<char>,
        call_link_name: Seq<char>,
        free_link_name: Seq<char>,
        call_fn_ident: Seq<char>,
        free_fn_ident: Seq<char>,
        idx: nat,
        path: Seq<char>,
        types: TypeDeclarations,
    ) -> Seq<char> {
        "{\n"@ + self.spec_extern_block(
            call_link_name,
            free_link_name,
            call_fn_ident,
            free_fn_ident,
            path,
            types,
        ) + self.spec_guard_block(free_fn_ident, idx) + self.spec_closure_tail(
            expression,
            call_fn_ident,
            idx,
            path,
            types,
        ) + "\n}"@
    }

    fn extern_block(
        &self,
        call_link_name: &str,
        free_link_name: &str,
        call_fn_ident: &str,
        free_fn_ident: &str,
        swift_bridge_path: &str,
        types: &TypeDeclarations,
    ) -> (r: String)
        requires
            self.rendered(*types),
        ensures
            r@ == self.spec_extern_block(
                call_link_name@,
                free_link_name@,
                call_fn_ident@,
                free_fn_ident@,
                swift_bridge_path@,
                *types,
            ),
    {
        let params = self.params_to_ffi_compatible_rust_arg_names_and_types(
            swift_bridge_path,
            types,
        );
        let maybe_params = Self::comma_list_of(&params);
        let mut maybe_ret = String::new();
        if !self.ret.is_null() {
            let ret = types.rendering_of(&self.ret).unwrap();
            let no_expr = String::new();
            let ty = ret.ffi_rust_type.apply(no_expr.as_str(), 0, swift_bridge_path);
            push_str(&mut maybe_ret, " -> ");
            push_str(&mut maybe_ret, ty.as_str());
        }
        let mut out = String::from_str("extern \"C\" {\n#[link_name = \"");
        push_str(&mut out, call_link_name);
        push_str(&mut out, "\"]\nfn ");
        push_str(&mut out, call_fn_ident);
        push_str(&mut out, "(callback: *mut std::ffi::c_void");
        push_str(&mut out, maybe_params.as_str());
        push_str(&mut out, ")");
        push_str(&mut out, maybe_ret.as_str());
        push_str(&mut out, ";\n#[link_name = \"");
        push_str(&mut out, free_link_name);
        push_str(&mut out, "\"]\nfn ");
        push_str(&mut out, free_fn_ident);
        push_str(&mut out, "(callback: *mut std::ffi::c_void);\n}\n");
        out
    }

    fn guard_block(&self, free_fn_ident: &str, idx: usize) -> (r: String)
        ensures
            r@ == self.spec_guard_block(free_fn_ident@, idx as nat),
    {
        let mut guard = String::from_str("__SwiftBridgeCallbackGuard");
        push_decimal(&mut guard, idx);
        let mut out = String::from_str("struct ");
        push_str(&mut out, guard.as_str());
        push_str(&mut out, " {\nptr: *mut std::ffi::c_void,\n}\n");
        if self.has_bound(BridgeableFnTraitBound::Send) {
            push_str(&mut out, "unsafe impl Send for ");
            push_str(&mut out, guard.as_str());
            push_str(&mut out, " {}\n");
        }
        if self.has_bound(BridgeableFnTraitBound::Sync) {
            push_str(&mut out, "unsafe impl Sync for ");
            push_str(&mut out, guard.as_str());
            push_str(&mut out, " {}\n");
        }
        push_str(&mut out, "impl ");
        push_str(&mut out, guard.as_str());
        push_str(
            &mut out,
            " {\nfn ptr(&self) -> *mut std::ffi::c_void {\nself.ptr\n}\n}\nimpl Drop for ",
        );
        push_str(&mut out, guard.as_str());
        push_str(&mut out, " {\nfn drop(&mut self) {\nunsafe { ");
        push_str(&mut out, free_fn_ident);
        push_str(&mut out, "(self.ptr) }\n}\n}\n");
        out
    }

    fn closure_tail(
        &self,
        expression: &str,
        call_fn_ident: &str,
        idx: usize,
        swift_bridge_path: &str,
        types: &TypeDeclarations,
    ) -> (r: String)
        requires
            self.rendered(*types),
        ensures
            r@ == self.spec_closure_tail(
                expression@,
                call_fn_ident@,
                idx as nat,
                swift_bridge_path@,
                *types,
            ),
    {
        let call_swift = self.call_swift(call_fn_ident, idx, swift_bridge_path, types);
        let arg_idents = self.to_swift_call_args();
        let closure_ty = self.to_rust_type_path(types);
        let mut out = String::from_str("let __swift_bridge_callback");
        push_decimal(&mut out, idx);
        push_str(&mut out, " = __SwiftBridgeCallbackGuard");
        push_decimal(&mut out, idx);
        push_str(&mut out, " { ptr: ");
        push_str(&mut out, expression);
        push_str(&mut out, " };\n");
        match self.owner {
            BridgeableFnOwner::Box => push_str(&mut out, "Box::new("),
            BridgeableFnOwner::Arc => push_str(&mut out, "std::sync::Arc::new("),
        }
        push_str(&mut out, "move |");
        push_str(&mut out, arg_idents.as_str());
        push_str(&mut out, "| {\n");
        push_str(&mut out, call_swift.as_str());
        push_str(&mut out, "\n}");
        push_str(&mut out, ") as ");
        push_str(&mut out, closure_ty.as_str());
        out
    }

    fn has_bound(&self, b: BridgeableFnTraitBound) -> (r: bool)
        ensures
            r == self.trait_bounds@.contains(b),
    {
        let mut i: usize = 0;
        while i < self.trait_bounds.len()
            invariant
                i <= self.trait_bounds@.len(),
                forall|j: int| 0 <= j < i ==> self.trait_bounds@[j] != b,
            decreases self.trait_bounds.len() - i,
        {
            if self.trait_bounds[i] == b {
                assert(self.trait_bounds@[i as int] == b);
                return true;
            }
            i = i + 1;
        }
        false
    }

    fn comma_list_of(items: &Vec<String>) -> (r: String)
        ensures
            r@ == Self::comma_list(views(items@)),
    {
        if items.len() == 0 {
            String::new()
        } else {
            let mut r = String::from_str(", ");
            let joined = join_strings(items, ", ");
            push_str(&mut r, joined.as_str());
            r
        }
    }

    fn ffi_args(&self, swift_bridge_path: &str, types: &TypeDeclarations) -> (r: Vec<String>)
        requires
            self.params_rendered(*types),
        ensures
            views(r@) == Seq::new(
                self.params@.len(),
                |i: int| self.spec_ffi_arg(*types, swift_bridge_path@, i),
            ),
    {
        let mut parts: Vec<String> = Vec::new();
        let mut i: usize = 0;
        while i < self.params.len()
            invariant
                self.params_rendered(*types),
                i <= self.params@.len(),
                parts@.len() == i,
                forall|j: int|
                    0 <= j < i ==> #[trigger] parts@[j]@ == self.spec_ffi_arg(
                        *types,
                        swift_bridge_path@,
                        j,
                    ),
            decreases self.params.len() - i,
        {
            assert(types.describes(self.params@[i as int]));
            let r = types.rendering_of(&self.params[i]).unwrap();
            let name = make_arg_name(i);
            parts.push(r.rust_to_ffi.apply(name.as_str(), i, swift_bridge_path));
            i = i + 1;
        }
        assert(views(parts@) =~= Seq::new(
            self.params@.len(),
            |i: int| self.spec_ffi_arg(*types, swift_bridge_path@, i),
        ));
        parts
    }

    fn call_swift(
        &self,
        call_fn_ident: &str,
        idx: usize,
        swift_bridge_path: &str,
        types: &TypeDeclarations,
    ) -> (r: String)
        requires
            self.rendered(*types),
        ensures
            r@ == self.spec_call_swift(call_fn_ident@, idx as nat, swift_bridge_path@, *types),
    {
        let args = self.ffi_args(swift_bridge_path, types);
        let maybe_args = Self::comma_list_of(&args);
        let mut call = String::from_str("unsafe { ");
        push_str(&mut call, call_fn_ident);
        push_str(&mut call, "(__swift_bridge_callback");
        push_decimal(&mut call, idx);
        push_str(&mut call, ".ptr()");
        push_str(&mut call, maybe_args.as_str());
        push_str(&mut call, ") }");
        if self.ret.is_null() {
            push_str(&mut call, ";");
            call
        } else {
            let ret = types.rendering_of(&self.ret).unwrap();
            let converted = ret.ffi_to_rust.apply("__swift_bridge_ret", 0, swift_bridge_path);
            let mut out = String::from_str("let __swift_bridge_ret = ");
            push_str(&mut out, call.as_str());
            push_str(&mut out, ";\n");
            push_str(&mut out, converted.as_str());
            out
        }
    }

    /// Turns the Swift callback pointer `expression` into a Rust closure of
    /// the callback's type (see `spec_closure_expression`), as source text.
    pub fn to_rust_closure_expression_from_swift_ffi_value(
        &self,
        expression: &str,
        call_link_name: &str,
        free_link_name: &str,
        call_fn_ident: &str,
        free_fn_ident: &str,
        idx: usize,
        swift_bridge_path: &str,
        types: &TypeDeclarations,
    ) -> (r: String)
        requires
            self.rendered(*types),
        ensures
            r@ == self.spec_closure_expression(
                expression@,
                call_link_name@,
                free_link_name@,
                call_fn_ident@,
                free_fn_ident@,
                idx as nat,
                swift_bridge_path@,
                *types,
            ),
    {
        let block = self.extern_block(
            call_link_name,
            free_link_name,
            call_fn_ident,
            free_fn_ident,
            swift_bridge_path,
            types,
        );
        let guard = self.guard_block(free_fn_ident, idx);
        let tail = self.closure_tail(expression, call_fn_ident, idx, swift_bridge_path, types);
        let mut out = String::from_str("{\n");
        push_str(&mut out, block.as_str());
        push_str(&mut out, guard.as_str());
        push_str(&mut out, tail.as_str());
        push_str(&mut out, "\n}");
        out
    }
}


/// The `Send` impl of a callback guard.
pub open spec fn send_impl(guard: Seq<char>) -> Seq<char> {
    "unsafe impl Send for "@ + guard + " {}\n"@
}

/// The `Sync` impl of a callback guard.
pub open spec fn sync_impl(guard: Seq<char>) -> Seq<char> {
    "unsafe impl Sync for "@ + guard + " {}\n"@
}

/// The guard that frees a Swift callback is `Send` exactly when the callback
/// type has the `Send` bound, and `Sync` exactly when it has the `Sync`
/// bound: the impls of the guard begin with the `Send` impl in the one case
/// and end with the `Sync` impl in the other.
pub proof fn lemma_guard_impls_follow_bounds(f: BridgeableBoxedFnOnce, guard: Seq<char>)
    ensures
        f.trait_bounds@.contains(BridgeableFnTraitBound::Send) <==> starts_with(
            f.spec_guard_impls(guard),
            send_impl(guard),
        ),
        f.trait_bounds@.contains(BridgeableFnTraitBound::Sync) <==> {
            let i = f.spec_guard_impls(guard);
            let p = sync_impl(guard);
            p.len() <= i.len() && i.skip(i.len() - p.len()) == p
        },
{
    reveal_strlit("unsafe impl Send for ");
    reveal_strlit("unsafe impl Sync for ");
    reveal_strlit(" {}\n");
    let send = send_impl(guard);
    let sync = sync_impl(guard);
    let i = f.spec_guard_impls(guard);
    assert(send.len() == sync.len());
    assert(send[13] == 'e' && sync[13] == 'y');
    let has_send = f.trait_bounds@.contains(BridgeableFnTraitBound::Send);
    let has_sync = f.trait_bounds@.contains(BridgeableFnTraitBound::Sync);
    if has_send {
        assert(i.subrange(0, send.len() as int) =~= send);
    } else if starts_with(i, send) {
        assert(i[13] == send[13]) by {
            assert(i.subrange(0, send.len() as int)[13] == i[13]);
        }
        if has_sync {
            assert(i =~= sync);
        } else {
            assert(i.len() == 0);
        }
    }
    if has_sync {
        assert(i.skip(i.len() - sync.len()) =~= sync);
    } else if sync.len() <= i.len() && i.skip(i.len() - sync.len()) == sync {
        if has_send {
            assert(i =~= send);
            assert(i.skip(0)[13] == i[13]);
        } else {
            assert(i.len() == 0);
        }
    }
}


/// Whether `c` occurs in `s`.
pub open spec fn has_char(s: Seq<char>, c: char) -> bool {
    exists|j: int| 0 <= j < s.len() && s[j] == c
}

impl BridgeableBoxedFnOnce {
    /// The rendered Rust types of the parameters.
    pub open spec fn param_paths(&self, types: TypeDeclarations) -> Seq<Seq<char>> {
        Seq::new(self.params@.len(), |i: int| self.param_rendering(types, i).rust_type_path@)
    }
}

/// Primitive types and `" , "`-joined lists of them hold no C-string
/// literal: they have neither `"` nor `#`.
proof fn lemma_primitive_lists_hold_no_c_string()
    ensures
        forall|ns: Seq<Seq<char>>|
            #![trigger join(ns, " , "@)]
            all_primitive(ns) ==> !may_hold_c_string(join(ns, " , "@)),
        forall|t: Seq<char>| #[trigger] primitive_type_text(t) ==> !may_hold_c_string(t),
{
    reveal_strlit(" , ");
    reveal_strlit("u8");
    reveal_strlit("i8");
    reveal_strlit("u16");
    reveal_strlit("i16");
    reveal_strlit("u32");
    reveal_strlit("i32");
    reveal_strlit("u64");
    reveal_strlit("i64");
    reveal_strlit("usize");
    reveal_strlit("isize");
    reveal_strlit("bool");
    reveal_strlit("f32");
    reveal_strlit("f64");
    reveal_strlit("()");
    assert forall|t: Seq<char>| #[trigger] primitive_type_text(t) implies forall|j: int|
        0 <= j < t.len() ==> t[j] != '"' && t[j] != '#' by {}
    assert forall|t: Seq<char>| #[trigger] primitive_type_text(t) implies !may_hold_c_string(t) by {
        assert forall|i: int| !#[trigger] c_string_start_at(t, i) by {
            if 0 <= i && i + 2 < t.len() {
                assert(t[i + 1] != '"' && t[i + 2] != '"' && t[i + 2] != '#');
            } else if 0 <= i && i + 1 < t.len() {
                assert(t[i + 1] != '"');
            }
        }
    }
    assert forall|ns: Seq<Seq<char>>| all_primitive(ns) implies !may_hold_c_string(
        #[trigger] join(ns, " , "@),
    ) by {
        let s = join(ns, " , "@);
        assert forall|x: int, j: int| 0 <= x < ns.len() && 0 <= j < ns[x].len() implies ns[x][j]
            != '"' by {
            assert(primitive_type_text(ns[x]));
        }
        assert forall|x: int, j: int| 0 <= x < ns.len() && 0 <= j < ns[x].len() implies ns[x][j]
            != '#' by {
            assert(primitive_type_text(ns[x]));
        }
        lemma_join_avoids(ns, " , "@, '"');
        lemma_join_avoids(ns, " , "@, '#');
        assert forall|i: int| !#[trigger] c_string_start_at(s, i) by {
            if 0 <= i && i + 2 < s.len() {
                assert(s[i + 1] != '"' && s[i + 2] != '"' && s[i + 2] != '#');
            } else if 0 <= i && i + 1 < s.len() {
                assert(s[i + 1] != '"');
            }
        }
    }
}

/// The `" + "`-joined bound names of `bs` after the first.
pub open spec fn later_bounds(bs: Seq<BridgeableFnTraitBound>) -> Seq<char> {
    concat(Seq::new((bs.len() - 1) as nat, |j: int| " + "@ + bound_text(bs[j + 1])))
}

proof fn lemma_bound_text(b: BridgeableFnTraitBound)
    ensures
        ({
            let w = bound_text(b);
            &&& w.len() > 0
            &&& !is_whitespace(w[0])
            &&& !is_whitespace(w.last())
            &&& w.last() != ','
            &&& forall|j: int| 0 <= j < w.len() ==> w[j] != '+'
            &&& bound_named(w) == Some(b)
        }),
{
    reveal_strlit("Send");
    reveal_strlit("Sync");
    reveal_strlit("'static");
}

/// The bounds of a `" + "`-joined list of bound names are read back in order.
#[verifier::rlimit(40)]
proof fn lemma_bounds_from_rendered(
    s: Seq<char>,
    i: int,
    bs: Seq<BridgeableFnTraitBound>,
    lead: Seq<char>,
)
    requires
        bs.len() > 0,
        lead == Seq::<char>::empty() || lead == " "@,
        0 <= i <= s.len(),
        s.skip(i) == lead + bound_text(bs[0]) + later_bounds(bs),
    ensures
        spec_bounds_from(s, i) == Some(bs),
    decreases bs.len(),
{
    reveal_strlit(" ");
    reveal_strlit(" + ");
    let w = bound_text(bs[0]);
    lemma_bound_text(bs[0]);
    let parts = Seq::new((bs.len() - 1) as nat, |j: int| " + "@ + bound_text(bs[j + 1]));
    lemma_find_from(s, '+', i);
    if bs.len() == 1 {
        assert(parts =~= Seq::<Seq<char>>::empty());
        assert(later_bounds(bs) =~= Seq::<char>::empty());
        assert(s.skip(i) =~= lead + w);
        assert forall|j: int| i <= j < s.len() implies s[j] != '+' by {
            assert(s[j] == s.skip(i)[j - i]);
        }
        assert(piece_end(s, i) == s.len());
        assert(s.subrange(i, s.len() as int) =~= lead + w);
        lemma_trim_after_space(w);
        assert(trim(s.subrange(i, s.len() as int)) == w);
        assert(seq![bs[0]] + Seq::<BridgeableFnTraitBound>::empty() =~= bs);
    } else {
        let rest = bs.drop_first();
        lemma_concat_front(parts);
        assert(parts[0] == " + "@ + bound_text(bs[1]));
        assert(parts.drop_first() =~= Seq::new(
            (rest.len() - 1) as nat,
            |j: int| " + "@ + bound_text(rest[j + 1]),
        ));
        let tail = later_bounds(rest);
        assert(later_bounds(bs) == " + "@ + bound_text(rest[0]) + tail);
        let k = i + lead.len() + w.len() + 1;
        reveal_strlit("+");
        assert(" + "@ =~= " "@ + "+"@ + " "@);
        let u = s.skip(i);
        assert(u =~= lead + w + " "@ + ("+"@ + " "@ + bound_text(rest[0]) + tail));
        assert(u.skip(lead.len() + w.len() + 2int) =~= " "@ + bound_text(rest[0]) + tail);
        assert(s.skip(k + 1) =~= u.skip(lead.len() + w.len() + 2int));
        assert forall|j: int| i <= j < k implies s[j] != '+' by {
            assert(s[j] == u[j - i]);
        }
        assert(s[k] == u[k - i]);
        assert(s[k] == '+');
        assert(find_from(s, '+', i) == Some(k));
        assert(s.subrange(i, k) =~= lead + w + " "@);
        lemma_trim_before_space(w);
        assert(trim(s.subrange(i, k)) == w);
        assert(s.skip(k + 1) =~= " "@ + bound_text(rest[0]) + tail);
        lemma_bounds_from_rendered(s, k + 1, rest, " "@);
        assert(seq![bs[0]] + rest =~= bs);
    }
}

/// The owner and trait of a rendered callback type are read back from its
/// start.
proof fn lemma_rendered_prefix(
    o: BridgeableFnOwner,
    k: BridgeableFnTrait,
    body: Seq<char>,
    rest: Seq<char>,
)
    requires
        !(o == BridgeableFnOwner::Arc && k == BridgeableFnTrait::FnOnce),
        body == "dyn "@ + trait_text(k) + rest,
        rest.len() > 0,
        rest[0] == ' ',
    ensures
        spec_callback_prefix(
            match o {
                BridgeableFnOwner::Box => "Box < "@,
                BridgeableFnOwner::Arc => "std :: sync :: Arc < "@,
            } + body,
        ) == Some((o, k, rest)),
{
    reveal_strlit("Box < ");
    reveal_strlit("std :: sync :: Arc < ");
    reveal_strlit("dyn ");
    reveal_strlit("FnOnce");
    reveal_strlit("Fn");
    reveal_strlit("Box < dyn FnOnce");
    reveal_strlit("Box < dyn Fn");
    reveal_strlit("Arc < dyn Fn");
    reveal_strlit("std :: sync :: Arc < dyn Fn");
    let s = match o {
        BridgeableFnOwner::Box => "Box < "@,
        BridgeableFnOwner::Arc => "std :: sync :: Arc < "@,
    } + body;
    if o == BridgeableFnOwner::Box && k == BridgeableFnTrait::FnOnce {
        let p = "Box < dyn FnOnce"@;
        assert(s =~= p + rest);
        assert(s.subrange(0, 16) =~= p);
        assert(s.skip(16) =~= rest);
    } else if o == BridgeableFnOwner::Box {
        let p = "Box < dyn Fn"@;
        assert(s =~= p + rest);
        assert(s.subrange(0, 12) =~= p);
        assert(s.skip(12) =~= rest);
        assert(s[12] == ' ');
        if s.len() >= 16 {
            assert(s.subrange(0, 16)[12] == ' ');
        }
    } else {
        let p = "std :: sync :: Arc < dyn Fn"@;
        assert(s =~= p + rest);
        assert(s.subrange(0, 27) =~= p);
        assert(s.skip(27) =~= rest);
        if s.len() >= 16 {
            assert(s.subrange(0, 16)[0] == 's');
        }
        if s.len() >= 12 {
            assert(s.subrange(0, 12)[0] == 's');
        }
    }
}

/// The `" + "`-prefixed bound names of `bs`, as a rendered callback type
/// lists them.
pub open spec fn bounds_suffix_of(bs: Seq<BridgeableFnTraitBound>) -> Seq<char> {
    concat(Seq::new(bs.len(), |i: int| " + "@ + bound_text(bs[i])))
}

/// The text after the argument list of a rendered callback type reads back
/// as its return type and its bounds.
#[verifier::rlimit(60)]
proof fn lemma_rendered_end(r: Seq<char>, bs: Seq<BridgeableFnTraitBound>)
    requires
        r.len() > 0,
        !is_whitespace(r[0]),
        !is_whitespace(r.last()),
        r.last() != ',',
        !has_char(r, '+'),
    ensures
        spec_trim_signature_end(" "@ + ("-> "@ + r + bounds_suffix_of(bs) + " >"@)) == "-> "@ + r
            + bounds_suffix_of(bs),
        spec_return_and_bounds("-> "@ + r + bounds_suffix_of(bs)) matches Some((Some(x), bt)) && x
            == r && spec_trait_bounds(bt) == Some(bs),
{
    reveal_strlit(" >");
    reveal_strlit("-> ");
    reveal_strlit(" ");
    reveal_strlit(" + ");
    let big = bounds_suffix_of(bs);
    let e = "-> "@ + r + big;
    let y = e + " >"@;
    assert forall|j: int| 0 <= j < r.len() implies r[j] != '+' by {
        assert(!has_char(r, '+'));
    }
    lemma_trim_after_space(r);
    lemma_trim_before_space(r);
    if bs.len() == 0 {
        assert(Seq::new(bs.len(), |i: int| " + "@ + bound_text(bs[i])) =~= Seq::<Seq<char>>::empty());
        assert(big =~= Seq::<char>::empty());
        assert(e =~= "-> "@ + r);
        assert(y.drop_last() =~= e + " "@);
        assert(e.last() == r.last());
        lemma_trim_after_space(y);
        lemma_trim_before_space(e);
        assert(trim_trailing_commas(e + " "@) == e);
        assert(e.skip(2) =~= " "@ + r);
        lemma_find_absent(r, '+');
        assert(spec_return_and_bounds(e) == Some((Some(r), Seq::<char>::empty())));
    } else {
        let parts = Seq::new(bs.len(), |i: int| " + "@ + bound_text(bs[i]));
        lemma_concat_front(parts);
        assert(parts.drop_first() =~= Seq::new(
            (bs.len() - 1) as nat,
            |j: int| " + "@ + bound_text(bs[j + 1]),
        ));
        let tb = bound_text(bs[0]) + later_bounds(bs);
        assert(big =~= " + "@ + tb);
        let lastb = bound_text(bs[bs.len() - 1]);
        lemma_bound_text(bs[bs.len() - 1]);
        lemma_bound_text(bs[0]);
        assert(parts.last() == " + "@ + lastb);
        assert(big == concat(parts.drop_last()) + parts.last());
        assert(big.last() == lastb.last());
        assert(tb.last() == big.last());
        assert(e.last() == big.last());
        assert(y.drop_last() =~= e + " "@);
        lemma_trim_after_space(y);
        lemma_trim_before_space(e);
        assert(trim_trailing_commas(e + " "@) == e);
        let rb = r + big;
        assert(rb.last() == big.last());
        assert(e.skip(2) =~= " "@ + rb);
        lemma_trim_after_space(rb);
        let k = r.len() as int + 1;
        assert(rb[k] == '+');
        assert forall|j: int| 0 <= j < k implies rb[j] != '+' by {
            if j < r.len() {
                assert(rb[j] == r[j]);
            }
        }
        lemma_find_first(rb, '+', k);
        assert(rb.take(k) =~= r + " "@);
        assert(rb.skip(k + 1) =~= " "@ + tb);
        lemma_trim_after_space(tb);
        assert(tb.skip(0) =~= Seq::<char>::empty() + bound_text(bs[0]) + later_bounds(bs));
        lemma_bounds_from_rendered(tb, 0, bs, Seq::<char>::empty());
        assert(spec_trait_bounds(" "@ + tb) == Some(bs));
    }
}

/// The Rust type of a callback, as `to_rust_type_path` renders it, reads
/// back as a callback signature with the same owner, trait and trait bounds,
/// the rendered parameter types as its argument list and the rendered return
/// type as its return type. The rendered types must not hold a parenthesis
/// (parameters) or `+` (return type), and the return type must not start or
/// end with whitespace or end with `,`.
#[verifier::spinoff_prover]
#[verifier::rlimit(80)]
pub proof fn lemma_rendered_callback_reads_back(f: BridgeableBoxedFnOnce, types: TypeDeclarations)
    requires
        f.rendered(types),
        !(f.owner == BridgeableFnOwner::Arc && f.trait_kind == BridgeableFnTrait::FnOnce),
        forall|i: int|
            0 <= i < f.params@.len() ==> !has_char(f.param_rendering(types, i).rust_type_path@, '(')
                && !has_char(f.param_rendering(types, i).rust_type_path@, ')'),
        ({
            let r = rendering_for(types, *f.ret).rust_type_path@;
            &&& r.len() > 0
            &&& !is_whitespace(r[0])
            &&& !is_whitespace(r.last())
            &&& r.last() != ','
            &&& !has_char(r, '+')
        }),
    ensures
        spec_callback_signature(f.spec_rust_type_path(types)) == Some(
            (
                f.owner,
                f.trait_kind,
                f.trait_bounds@,
                join(f.param_paths(types), " , "@),
                Some(rendering_for(types, *f.ret).rust_type_path@),
            ),
        ),
        callback_parens_ok(f.spec_rust_type_path(types)),
{
    reveal_strlit(" (");
    reveal_strlit(" , ");
    reveal_strlit(") -> ");
    reveal_strlit(" >");
    reveal_strlit("-> ");
    reveal_strlit(" ");
    let paths = f.param_paths(types);
    let a = join(paths, " , "@);
    let r = rendering_for(types, *f.ret).rust_type_path@;
    let big = bounds_suffix_of(f.trait_bounds@);
    assert(f.spec_bounds_suffix() == big);
    assert(Seq::new(f.params@.len(), |i: int| f.param_rendering(types, i).rust_type_path@) == paths);
    let rest = " ("@ + a + ") -> "@ + r + big + " >"@;
    let s = f.spec_rust_type_path(types);
    lemma_rendered_prefix(f.owner, f.trait_kind, "dyn "@ + trait_text(f.trait_kind) + rest, rest);
    assert(s =~= match f.owner {
        BridgeableFnOwner::Box => "Box < "@,
        BridgeableFnOwner::Arc => "std :: sync :: Arc < "@,
    } + ("dyn "@ + trait_text(f.trait_kind) + rest));
    assert forall|j: int| 0 <= j < a.len() implies a[j] != '(' && a[j] != ')' by {
        assert forall|i: int, k: int| 0 <= i < paths.len() && 0 <= k < paths[i].len() implies paths[
            i][k] != '(' by {
            assert(!has_char(f.param_rendering(types, i).rust_type_path@, '('));
        }
        assert forall|i: int, k: int| 0 <= i < paths.len() && 0 <= k < paths[i].len() implies paths[
            i][k] != ')' by {
            assert(!has_char(f.param_rendering(types, i).rust_type_path@, ')'));
        }
        lemma_join_avoids(paths, " , "@, '(');
        lemma_join_avoids(paths, " , "@, ')');
    }
    let c: int = a.len() as int + 2;
    assert(rest[c] == ')');
    assert forall|j: int| 0 <= j < c implies rest[j] != ')' by {
        if j > 1 {
            assert(rest[j] == a[j - 2]);
        }
    }
    lemma_find_first(rest, '(', 1);
    lemma_find_first(rest, ')', c);
    assert(rest.subrange(2, c) =~= a);
    assert(rest.skip(c + 1) =~= " "@ + ("-> "@ + r + big + " >"@));
    lemma_rendered_end(r, f.trait_bounds@);
    lemma_trim_after_space(r);
    assert(strip_trailing_commas(r) == r);
}


/// A callback whose parameter and return types are primitive (`u8`, `bool`,
/// ..., and `()` as return type) and rendered as they are spelled: its
/// rendered Rust type is one that `from_str_tokens_checked` reads back as
/// the same callback (see the last clause of its contract), with the same
/// owner, trait, bounds, parameter types and return type.
pub proof fn lemma_primitive_callback_reads_back(f: BridgeableBoxedFnOnce, types: TypeDeclarations)
    requires
        f.rendered(types),
        !(f.owner == BridgeableFnOwner::Arc && f.trait_kind == BridgeableFnTrait::FnOnce),
        forall|i: int|
            0 <= i < f.params@.len() ==> f.param_rendering(types, i).rust_type_path@
                == (#[trigger] f.params@[i]).rust_type@ && primitive_type_text(f.params@[i].rust_type@)
                && f.params@[i].rust_type@ != "()"@,
        rendering_for(types, *f.ret).rust_type_path@ == f.ret.rust_type@,
        primitive_type_text(f.ret.rust_type@),
    ensures
        callback_parens_ok(f.spec_rust_type_path(types)),
        all_primitive(f.param_types()),
        primitive_type_text(f.ret.rust_type@),
        spec_callback_signature(f.spec_rust_type_path(types)) == Some(
            (
                f.owner,
                f.trait_kind,
                f.trait_bounds@,
                join(f.param_types(), " , "@),
                Some(f.ret.rust_type@),
            ),
        ),
{
    reveal_strlit("u8");
    reveal_strlit("i8");
    reveal_strlit("u16");
    reveal_strlit("i16");
    reveal_strlit("u32");
    reveal_strlit("i32");
    reveal_strlit("u64");
    reveal_strlit("i64");
    reveal_strlit("usize");
    reveal_strlit("isize");
    reveal_strlit("bool");
    reveal_strlit("f32");
    reveal_strlit("f64");
    reveal_strlit("()");
    assert(f.param_paths(types) =~= f.param_types());
    assert forall|i: int| 0 <= i < f.params@.len() implies !has_char(
        f.param_rendering(types, i).rust_type_path@,
        '(',
    ) && !has_char(f.param_rendering(types, i).rust_type_path@, ')') by {
        let t = f.params@[i].rust_type@;
        assert(primitive_type_text(t) && t != "()"@);
        assert(forall|j: int| 0 <= j < t.len() ==> t[j] != '(' && t[j] != ')');
    }
    let r = f.ret.rust_type@;
    assert(r.len() > 0 && !is_whitespace(r[0]) && !is_whitespace(r.last()) && r.last() != ','
        && forall|j: int| 0 <= j < r.len() ==> r[j] != '+');
    assert(!has_char(r, '+'));
    assert forall|i: int| 0 <= i < f.param_types().len() implies primitive_type_text(
        #[trigger] f.param_types()[i],
    ) by {
        assert(f.param_types()[i] == f.params@[i].rust_type@);
    }
    lemma_rendered_callback_reads_back(f, types);
}


/// The Rust block that turns a Swift callback into a Rust closure is the
/// `extern "C"` block, then the guard, then the closure; the extern block
/// declares the call function with one parameter per callback parameter
/// and `-> R` exactly when the callback returns a value, then the free
/// function; the guard's `Drop` calls the free function on its pointer; and
/// the closure is boxed (`Box::new`) or shared (`std::sync::Arc::new`) as the
/// owner says, and cast to the callback's Rust type.
pub proof fn lemma_closure_expression_structure(
    f: BridgeableBoxedFnOnce,
    expression: Seq<char>,
    call_link_name: Seq<char>,
    free_link_name: Seq<char>,
    call_fn_ident: Seq<char>,
    free_fn_ident: Seq<char>,
    idx: nat,
    path: Seq<char>,
    types: TypeDeclarations,
)
    ensures
        ({
            let ext = f.spec_extern_block(
                call_link_name,
                free_link_name,
                call_fn_ident,
                free_fn_ident,
                path,
                types,
            );
            let guard = "__SwiftBridgeCallbackGuard"@ + decimal(idx);
            let params = BridgeableBoxedFnOnce::comma_list(
                Seq::new(f.params@.len(), |i: int| f.spec_ffi_param(types, path, i)),
            );
            let ret = if f.ret.spec_is_null() {
                Seq::empty()
            } else {
                " -> "@ + rendering_for(types, *f.ret).ffi_rust_type.spec_apply(Seq::empty(), 0, path)
            };
            let tail = f.spec_closure_tail(expression, call_fn_ident, idx, path, types);
            &&& f.spec_closure_expression(
                expression,
                call_link_name,
                free_link_name,
                call_fn_ident,
                free_fn_ident,
                idx,
                path,
                types,
            ) == "{\n"@ + ext + f.spec_guard_block(free_fn_ident, idx) + tail + "\n}"@
            &&& ext == "extern \"C\" {\n#[link_name = \""@ + call_link_name + "\"]\nfn "@
                + call_fn_ident + "(callback: *mut std::ffi::c_void"@ + params + ")"@ + ret
                + ";\n#[link_name = \""@ + free_link_name + "\"]\nfn "@ + free_fn_ident
                + "(callback: *mut std::ffi::c_void);\n}\n"@
            &&& (ret.len() == 0 <==> f.ret.spec_is_null())
            &&& f.spec_guard_block(free_fn_ident, idx) == "struct "@ + guard
                + " {\nptr: *mut std::ffi::c_void,\n}\n"@ + f.spec_guard_impls(guard) + "impl "@
                + guard + " {\nfn ptr(&self) -> *mut std::ffi::c_void {\nself.ptr\n}\n}\nimpl Drop for "@
                + guard + " {\nfn drop(&mut self) {\nunsafe { "@ + free_fn_ident
                + "(self.ptr) }\n}\n}\n"@
            &&& tail == "let __swift_bridge_callback"@ + decimal(idx) + " = "@ + guard
                + " { ptr: "@ + expression + " };\n"@ + match f.owner {
                BridgeableFnOwner::Box => "Box::new("@,
                BridgeableFnOwner::Arc => "std::sync::Arc::new("@,
            } + ("move |"@ + f.spec_call_args() + "| {\n"@ + f.spec_call_swift(
                call_fn_ident,
                idx,
                path,
                types,
            ) + "\n}"@) + ") as "@ + f.spec_rust_type_path(types)
        }),
{
    reveal_strlit(" -> ");
    let closure = "move |"@ + f.spec_call_args() + "| {\n"@ + f.spec_call_swift(
        call_fn_ident,
        idx,
        path,
        types,
    ) + "\n}"@;
    let tail = f.spec_closure_tail(expression, call_fn_ident, idx, path, types);
    let guard = "__SwiftBridgeCallbackGuard"@ + decimal(idx);
    assert(tail == "let __swift_bridge_callback"@ + decimal(idx) + " = "@ + guard + " { ptr: "@
        + expression + " };\n"@ + match f.owner {
        BridgeableFnOwner::Box => "Box::new("@,
        BridgeableFnOwner::Arc => "std::sync::Arc::new("@,
    } + closure + ") as "@ + f.spec_rust_type_path(types)) by {
        reveal_strlit(" = __SwiftBridgeCallbackGuard");
        reveal_strlit(" = ");
        reveal_strlit("__SwiftBridgeCallbackGuard");
    }
}


/// The Swift closure that forwards to callback object `cb<idx>` binds every
/// parameter, `arg0` to `arg(n-1)`, and passes each on, in order; a callback
/// without parameters gives `{ cb<idx>.call() }`.
pub proof fn lemma_swift_closure_forwards_every_argument(f: BridgeableBoxedFnOnce, idx: nat)
    ensures
        ({
            let n = f.params@.len();
            let names = join(Seq::new(n, |i: int| "arg"@ + decimal(i as nat)), ", "@);
            &&& n >= 1 ==> f.spec_ffi_value_to_swift_value(idx) == "{ "@ + names + " in cb"@
                + decimal(idx) + ".call("@ + names + ") }"@
            &&& n == 0 ==> f.spec_ffi_value_to_swift_value(idx) == "{ cb"@ + decimal(idx)
                + ".call() }"@
        }),
{
    let n = f.params@.len();
    assert(Seq::new(n, |i: int| "arg"@ + decimal(i as nat)) =~= Seq::new(
        n,
        |i: int| arg_name(i as nat),
    ));
}

/// In the Rust closure made from a Swift callback pointer, the closure takes
/// `arg0` to `arg(n-1)` and hands the Swift call function the guard's
/// pointer followed by parameter `i`'s name converted with parameter `i`'s
/// FFI conversion, for each `i` in order; the call function is declared with
/// the same parameters, `arg<i>` of parameter `i`'s FFI type, in the same
/// order.
pub proof fn lemma_closure_forwards_arguments_in_order(
    f: BridgeableBoxedFnOnce,
    expression: Seq<char>,
    call_link_name: Seq<char>,
    free_link_name: Seq<char>,
    call_fn_ident: Seq<char>,
    free_fn_ident: Seq<char>,
    idx: nat,
    path: Seq<char>,
    types: TypeDeclarations,
)
    ensures
        ({
            let n = f.params@.len();
            let names = join(Seq::new(n, |i: int| "arg"@ + decimal(i as nat)), ", "@);
            let args = Seq::new(
                n,
                |i: int| f.param_rendering(types, i).rust_to_ffi.spec_apply(
                    "arg"@ + decimal(i as nat),
                    i as nat,
                    path,
                ),
            );
            let params = Seq::new(
                n,
                |i: int| "arg"@ + decimal(i as nat) + ": "@ + f.param_rendering(
                    types,
                    i,
                ).ffi_rust_type.spec_apply(Seq::empty(), i as nat, path),
            );
            let call = "unsafe { "@ + call_fn_ident + "(__swift_bridge_callback"@ + decimal(idx)
                + ".ptr()"@ + (if n == 0 {
                Seq::empty()
            } else {
                ", "@ + join(args, ", "@)
            }) + ") }"@;
            let body = if f.ret.spec_is_null() {
                call + ";"@
            } else {
                "let __swift_bridge_ret = "@ + call + ";\n"@ + rendering_for(
                    types,
                    *f.ret,
                ).ffi_to_rust.spec_apply("__swift_bridge_ret"@, 0, path)
            };
            let ret = if f.ret.spec_is_null() {
                Seq::empty()
            } else {
                " -> "@ + rendering_for(types, *f.ret).ffi_rust_type.spec_apply(Seq::empty(), 0, path)
            };
            let guard = "__SwiftBridgeCallbackGuard"@ + decimal(idx);
            let ext = "extern \"C\" {\n#[link_name = \""@ + call_link_name + "\"]\nfn "@
                + call_fn_ident + "(callback: *mut std::ffi::c_void"@ + (if n == 0 {
                Seq::empty()
            } else {
                ", "@ + join(params, ", "@)
            }) + ")"@ + ret + ";\n#[link_name = \""@ + free_link_name + "\"]\nfn "@
                + free_fn_ident + "(callback: *mut std::ffi::c_void);\n}\n"@;
            f.spec_closure_expression(
                expression,
                call_link_name,
                free_link_name,
                call_fn_ident,
                free_fn_ident,
                idx,
                path,
                types,
            ) == "{\n"@ + ext + f.spec_guard_block(free_fn_ident, idx) + "let __swift_bridge_callback"@
                + decimal(idx) + " = "@ + guard + " { ptr: "@ + expression + " };\n"@ + match f.owner {
                BridgeableFnOwner::Box => "Box::new("@,
                BridgeableFnOwner::Arc => "std::sync::Arc::new("@,
            } + ("move |"@ + names + "| {\n"@ + body + "\n}"@) + ") as "@ + f.spec_rust_type_path(
                types,
            ) + "\n}"@
        }),
{
    let n = f.params@.len();
    lemma_closure_expression_structure(
        f,
        expression,
        call_link_name,
        free_link_name,
        call_fn_ident,
        free_fn_ident,
        idx,
        path,
        types,
    );
    assert(Seq::new(n, |i: int| "arg"@ + decimal(i as nat)) =~= Seq::new(
        n,
        |i: int| arg_name(i as nat),
    ));
    assert(Seq::new(
        n,
        |i: int| f.param_rendering(types, i).rust_to_ffi.spec_apply(
            "arg"@ + decimal(i as nat),
            i as nat,
            path,
        ),
    ) =~= Seq::new(n, |i: int| f.spec_ffi_arg(types, path, i)));
    assert(Seq::new(
        n,
        |i: int| "arg"@ + decimal(i as nat) + ": "@ + f.param_rendering(
            types,
            i,
        ).ffi_rust_type.spec_apply(Seq::empty(), i as nat, path),
    ) =~= Seq::new(n, |i: int| f.spec_ffi_param(types, path, i)));
    let args = Seq::new(
        n,
        |i: int| f.param_rendering(types, i).rust_to_ffi.spec_apply(
            "arg"@ + decimal(i as nat),
            i as nat,
            path,
        ),
    );
    let params = Seq::new(
        n,
        |i: int| "arg"@ + decimal(i as nat) + ": "@ + f.param_rendering(
            types,
            i,
        ).ffi_rust_type.spec_apply(Seq::empty(), i as nat, path),
    );
    assert(BridgeableBoxedFnOnce::comma_list(Seq::new(n, |i: int| f.spec_ffi_arg(types, path, i)))
        == (if n == 0 {
        Seq::empty()
    } else {
        ", "@ + join(args, ", "@)
    }));
    assert(BridgeableBoxedFnOnce::comma_list(
        Seq::new(n, |i: int| f.spec_ffi_param(types, path, i)),
    ) == (if n == 0 {
        Seq::empty()
    } else {
        ", "@ + join(params, ", "@)
    }));
    assert(f.spec_call_args() == join(Seq::new(n, |i: int| "arg"@ + decimal(i as nat)), ", "@));
}

} // verus!
