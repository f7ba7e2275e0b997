//! The Swift function that swift-bridge generates for an `extern "Rust"`
//! function: its signature, the call into the `__swift_bridge__` FFI
//! function, the conversions of arguments and return value, `&str`
//! arguments, initializers, and the callback plumbing of `async` functions.
use vstd::prelude::*;
use crate::bridged_type::{ExprTemplate, HostLang};
use crate::text::{
    chars_of, find_char_from, find_from, join, join_strings, lemma_find_from, push_str,
    string_from_chars, str_eq, trim_end, vec_trim_end, views,
};

verus! {

/// How an immutable reference to an opaque Rust type is seen from Swift.
#[derive(Debug, Clone, Copy, PartialEq, Eq, Structural)]
pub enum OpaqueRustRefSwiftRepr {
    /// As a reference class (`FooRef`).
    Class,
    /// As a struct holding the pointer (`FooRefStruct`-style name).
    Struct,
}

/// The kind of a function input.
#[derive(Debug, Clone, Copy, PartialEq, Eq, Structural)]
pub enum ArgKind {
    /// `self`, `&self`, `&mut self`.
    Receiver,
    /// `self: Type`.
    TypedSelf,
    /// `name: Type`.
    Typed,
}

/// Whether an argument is a `&str` or an `Option<&str>`, which Swift passes
/// through a closure.
#[derive(Debug, Clone, Copy, PartialEq, Eq, Structural)]
pub enum StrArg {
    Other,
    Str,
    OptionalStr,
}

/// An opaque type named by an argument or return type.
pub struct OpaqueRef {
    /// The type is implemented in Rust.
    pub rust_host: bool,
    /// It is taken by reference.
    pub reference: bool,
    /// The reference is `&mut`.
    pub mutable: bool,
    /// The type is annotated `#[swift_bridge(Copy(..))]`.
    pub has_copy_annotation: bool,
    /// The name of its Swift struct reference type.
    pub swift_struct_ref_name: String,
}

/// One input of the function.
pub struct CallArg {
    pub kind: ArgKind,
    /// A receiver taken by reference (`&self`, `self: &Foo`).
    pub is_reference: bool,
    /// The argument's pattern, as printed.
    pub name: String,
    /// Its Swift argument label, if one is declared.
    pub label: Option<String>,
    /// Its Swift type.
    pub swift_type: String,
    /// The conversion of a Swift value of this argument for the FFI call.
    pub to_ffi: ExprTemplate,
    /// The opaque type it names, if any.
    pub opaque: Option<OpaqueRef>,
    pub str_arg: StrArg,
}

/// How an initializer may fail.
#[derive(Debug, Clone, Copy, PartialEq, Eq, Structural)]
pub enum FailableInitializerType {
    /// `init() throws`.
    Throwing,
    /// `init?()`.
    Optional,
}

/// A written return type (`-> T`).
pub struct ReturnType {
    /// Its Swift type in return position.
    pub swift_type: String,
    /// It is a `Result`.
    pub is_result: bool,
    /// It is encoded with zero bytes (such as `()`).
    pub zero_bytes: bool,
    /// The opaque type it names, if any.
    pub opaque: Option<OpaqueRef>,
}

/// A return value of a bridged type.
pub struct BuiltInReturn {
    /// The type is `()`.
    pub is_null: bool,
    /// The FFI return value converted to Swift.
    pub to_swift: ExprTemplate,
    /// The FFI return value of a throwing initializer converted to Swift.
    pub to_swift_throwing_init: ExprTemplate,
    /// The Swift type of the value in an async callback.
    pub async_swift_type: String,
    /// The Swift type of the value handed to an async completion.
    pub result_ffi_swift_type: String,
    /// That value converted to Swift.
    pub to_swift_result_ffi: ExprTemplate,
    /// For a `Result`, the Swift code that completes an async call with
    /// `rustFnRetVal`.
    pub async_result_callback: Option<String>,
}

/// How the value returned through the FFI comes back.
pub enum ReturnValue {
    BuiltIn(BuiltInReturn),
    /// A shared (transparent) type: as it is.
    Shared,
    /// An opaque type: `ty` is the printed type (the referenced type for a
    /// reference), `full_ty` the printed return type.
    Opaque { ty: String, full_ty: String, reference: bool, rust_host: bool },
}

/// An `extern "Rust"` function as the Swift code generation reads it.
pub struct SwiftCallsRust {
    pub fn_name: String,
    pub is_async: bool,
    pub host_lang: HostLang,
    /// The opaque type the function is associated to.
    pub associated_type: Option<String>,
    /// It takes `self`.
    pub is_method: bool,
    pub is_swift_initializer: bool,
    pub is_copy_method_on_opaque_type: bool,
    pub failable: Option<FailableInitializerType>,
    pub swift_name_override: Option<String>,
    pub args: Vec<CallArg>,
    /// The written return type, if any.
    pub output: Option<ReturnType>,
    pub ret: ReturnValue,
    /// The Swift generic parameters of the function (`<..>` or empty).
    pub swift_generics: String,
}

/// The Swift struct reference name of an immutable reference to an opaque
/// Rust type without a `Copy` annotation.
pub open spec fn struct_ref(o: Option<OpaqueRef>) -> Option<Seq<char>> {
    match o {
        Some(op) => if op.rust_host && op.reference && !op.mutable && !op.has_copy_annotation {
            Some(op.swift_struct_ref_name@)
        } else {
            None
        },
        None => None,
    }
}

/// The Swift type of an argument.
pub open spec fn arg_swift_type(a: CallArg, structs: bool) -> Seq<char> {
    if structs && struct_ref(a.opaque) is Some {
        struct_ref(a.opaque).unwrap()
    } else {
        a.swift_type@
    }
}

/// The Swift parameters an input contributes.
pub open spec fn param_entry(a: CallArg, include_receiver: bool, structs: bool) -> Seq<Seq<char>> {
    if a.kind != ArgKind::Typed {
        if include_receiver {
            seq!["_ this: UnsafeMutableRawPointer"@]
        } else {
            Seq::empty()
        }
    } else {
        match a.label {
            Some(l) => seq![l@ + " "@ + a.name@ + ": "@ + arg_swift_type(a, structs)],
            None => seq!["_ "@ + a.name@ + ": "@ + arg_swift_type(a, structs)],
        }
    }
}

/// The Swift parameters of the first `n` inputs.
pub open spec fn param_entries(args: Seq<CallArg>, n: int, include_receiver: bool, structs: bool) -> Seq<
    Seq<char>,
>
    decreases n,
{
    if n <= 0 || n > args.len() {
        Seq::empty()
    } else {
        param_entries(args, n - 1, include_receiver, structs) + param_entry(
            args[n - 1],
            include_receiver,
            structs,
        )
    }
}

/// The receiver as a call argument.
pub open spec fn receiver_arg(f: SwiftCallsRust, is_reference: bool) -> Seq<char> {
    if f.is_copy_method_on_opaque_type {
        "self.bytes"@
    } else if is_reference {
        "ptr"@
    } else {
        "{isOwned = false; return ptr;}()"@
    }
}

/// A Swift argument converted for the FFI call.
pub open spec fn call_arg_value(a: CallArg, idx: nat, structs: bool, path: Seq<char>) -> Seq<char> {
    if structs && struct_ref(a.opaque) is Some {
        a.name@ + ".ptr"@
    } else {
        a.to_ffi.spec_apply(a.name@, idx, path)
    }
}

/// The call arguments an input at `idx` contributes.
pub open spec fn call_arg_entry(
    f: SwiftCallsRust,
    a: CallArg,
    idx: nat,
    include_receiver: bool,
    include_var_name: bool,
    structs: bool,
    path: Seq<char>,
) -> Seq<Seq<char>> {
    if a.kind != ArgKind::Typed {
        if include_receiver {
            seq![receiver_arg(f, a.is_reference)]
        } else {
            Seq::empty()
        }
    } else {
        let v = call_arg_value(a, idx, structs, path);
        seq![
            if include_var_name {
                match a.label {
                    Some(l) => if l@ == "_"@ {
                        v
                    } else {
                        l@ + ": "@ + v
                    },
                    None => a.name@ + ": "@ + v,
                }
            } else {
                v
            },
        ]
    }
}

/// The call arguments of the first `n` inputs.
pub open spec fn call_arg_entries(
    f: SwiftCallsRust,
    n: int,
    include_receiver: bool,
    include_var_name: bool,
    structs: bool,
    path: Seq<char>,
) -> Seq<Seq<char>>
    decreases n,
{
    if n <= 0 || n > f.args@.len() {
        Seq::empty()
    } else {
        call_arg_entries(f, n - 1, include_receiver, include_var_name, structs, path)
            + call_arg_entry(
            f,
            f.args@[n - 1],
            (n - 1) as nat,
            include_receiver,
            include_var_name,
            structs,
            path,
        )
    }
}

/// The Swift struct reference name of the opaque type `o`, when it is an
/// immutable reference to an opaque Rust type without a `Copy` annotation.
pub fn opaque_rust_struct_ref(o: &Option<OpaqueRef>) -> (r: Option<&String>)
    ensures
        r matches Some(s) ==> struct_ref(*o) == Some(s@),
        r is None ==> struct_ref(*o) is None,
{
    match o {
        Some(op) => if op.rust_host && op.reference && !op.mutable && !op.has_copy_annotation {
            Some(&op.swift_struct_ref_name)
        } else {
            None
        },
        None => None,
    }
}

fn arg_swift_type_exec(a: &CallArg, structs: bool) -> (r: String)
    ensures
        r@ == arg_swift_type(*a, structs),
{
    if structs {
        if let Some(name) = opaque_rust_struct_ref(&a.opaque) {
            return name.clone();
        }
    }
    a.swift_type.clone()
}

/// The Swift parameter list `label name: Type, ..`.
pub fn to_swift_param_names_and_types(
    f: &SwiftCallsRust,
    include_receiver_if_present: bool,
    opaque_ref_repr: OpaqueRustRefSwiftRepr,
) -> (r: String)
    ensures
        r@ == join(
            param_entries(
                f.args@,
                f.args@.len() as int,
                include_receiver_if_present,
                opaque_ref_repr == OpaqueRustRefSwiftRepr::Struct,
            ),
            ", "@,
        ),
{
    let structs = opaque_ref_repr == OpaqueRustRefSwiftRepr::Struct;
    let mut params: Vec<String> = Vec::new();
    let mut i: usize = 0;
    while i < f.args.len()
        invariant
            i <= f.args@.len(),
            structs == (opaque_ref_repr == OpaqueRustRefSwiftRepr::Struct),
            views(params@) == param_entries(f.args@, i as int, include_receiver_if_present, structs),
        decreases f.args.len() - i,
    {
        let a = &f.args[i];
        let ghost before = views(params@);
        if a.kind != ArgKind::Typed {
            if include_receiver_if_present {
                params.push(String::from_str("_ this: UnsafeMutableRawPointer"));
            }
        } else {
            let ty = arg_swift_type_exec(a, structs);
            let mut p = String::new();
            match &a.label {
                Some(l) => {
                    push_str(&mut p, l.as_str());
                    push_str(&mut p, " ");
                },
                None => push_str(&mut p, "_ "),
            }
            push_str(&mut p, a.name.as_str());
            push_str(&mut p, ": ");
            push_str(&mut p, ty.as_str());
            params.push(p);
        }
        proof {
            assert(views(params@) =~= before + param_entry(
                f.args@[i as int],
                include_receiver_if_present,
                structs,
            ));
        }
        i = i + 1;
    }
    join_strings(&params, ", ")
}

/// Appends the receiver as a call argument.
pub fn push_receiver_as_arg(f: &SwiftCallsRust, args: &mut Vec<String>, is_reference: bool)
    ensures
        views(final(args)@) == views(old(args)@).push(receiver_arg(*f, is_reference)),
{
    let arg = if f.is_copy_method_on_opaque_type {
        "self.bytes"
    } else if is_reference {
        "ptr"
    } else {
        "{isOwned = false; return ptr;}()"
    };
    args.push(String::from_str(arg));
    assert(views(args@) =~= views(old(args)@).push(receiver_arg(*f, is_reference)));
}

/// A Swift argument converted for the FFI call.
pub fn convert_swift_expression_to_ffi_type(
    a: &CallArg,
    idx: usize,
    swift_bridge_path: &str,
    opaque_ref_repr: OpaqueRustRefSwiftRepr,
) -> (r: String)
    ensures
        r@ == call_arg_value(
            *a,
            idx as nat,
            opaque_ref_repr == OpaqueRustRefSwiftRepr::Struct,
            swift_bridge_path@,
        ),
{
    if opaque_ref_repr == OpaqueRustRefSwiftRepr::Struct && opaque_rust_struct_ref(&a.opaque).is_some() {
        let mut s = a.name.clone();
        push_str(&mut s, ".ptr");
        return s;
    }
    a.to_ffi.apply(a.name.as_str(), idx, swift_bridge_path)
}

/// The arguments of the FFI call, joined with `, `.
pub fn to_swift_call_args(
    f: &SwiftCallsRust,
    include_receiver_if_present: bool,
    include_var_name: bool,
    swift_bridge_path: &str,
    opaque_ref_repr: OpaqueRustRefSwiftRepr,
) -> (r: String)
    ensures
        r@ == join(
            call_arg_entries(
                *f,
                f.args@.len() as int,
                include_receiver_if_present,
                include_var_name,
                opaque_ref_repr == OpaqueRustRefSwiftRepr::Struct,
                swift_bridge_path@,
            ),
            ", "@,
        ),
{
    let structs = opaque_ref_repr == OpaqueRustRefSwiftRepr::Struct;
    let mut args: Vec<String> = Vec::new();
    let mut i: usize = 0;
    while i < f.args.len()
        invariant
            i <= f.args@.len(),
            structs == (opaque_ref_repr == OpaqueRustRefSwiftRepr::Struct),
            views(args@) == call_arg_entries(
                *f,
                i as int,
                include_receiver_if_present,
                include_var_name,
                structs,
                swift_bridge_path@,
            ),
        decreases f.args.len() - i,
    {
        let a = &f.args[i];
        let ghost before = views(args@);
        if a.kind != ArgKind::Typed {
            if include_receiver_if_present {
                push_receiver_as_arg(f, &mut args, a.is_reference);
            }
        } else {
            let v = convert_swift_expression_to_ffi_type(a, i, swift_bridge_path, opaque_ref_repr);
            let entry = if include_var_name {
                match &a.label {
                    Some(l) => {
                        if crate::text::str_eq(l.as_str(), "_") {
                            v
                        } else {
                            let mut e = l.clone();
                            push_str(&mut e, ": ");
                            push_str(&mut e, v.as_str());
                            e
                        }
                    },
                    None => {
                        let mut e = a.name.clone();
                        push_str(&mut e, ": ");
                        push_str(&mut e, v.as_str());
                        e
                    },
                }
            } else {
                v
            };
            args.push(entry);
        }
        proof {
            assert(views(args@) =~= before + call_arg_entry(
                *f,
                f.args@[i as int],
                i as nat,
                include_receiver_if_present,
                include_var_name,
                structs,
                swift_bridge_path@,
            ));
        }
        i = i + 1;
    }
    join_strings(&args, ", ")
}


/// Whether some typed input is an immutable reference to an opaque Rust type.
pub open spec fn spec_has_immutable_opaque_rust_ref_arg(f: SwiftCallsRust) -> bool {
    exists|k: int|
        0 <= k < f.args@.len() && f.args@[k].kind != ArgKind::Receiver && struct_ref(
            f.args@[k].opaque,
        ) is Some
}

/// Whether some typed input is an immutable reference to an opaque Rust type.
pub fn has_immutable_opaque_rust_ref_arg(f: &SwiftCallsRust) -> (r: bool)
    ensures
        r == spec_has_immutable_opaque_rust_ref_arg(*f),
{
    let mut i: usize = 0;
    while i < f.args.len()
        invariant
            i <= f.args@.len(),
            forall|k: int|
                0 <= k < i ==> !(f.args@[k].kind != ArgKind::Receiver && struct_ref(
                    f.args@[k].opaque,
                ) is Some),
        decreases f.args.len() - i,
    {
        if f.args[i].kind != ArgKind::Receiver && opaque_rust_struct_ref(&f.args[i].opaque).is_some() {
            return true;
        }
        i = i + 1;
    }
    false
}

/// `$Type` for a function associated to a type.
pub open spec fn type_name_segment(f: SwiftCallsRust) -> Seq<char> {
    match f.associated_type {
        Some(t) => "$"@ + t@,
        None => Seq::empty(),
    }
}

/// The call of the FFI function, without its prefix.
pub open spec fn call_fn(f: SwiftCallsRust, call_args: Seq<char>) -> Seq<char> {
    if f.is_async {
        f.fn_name@ + "(wrapperPtr, onComplete"@ + (if f.args@.len() == 0 {
            Seq::empty()
        } else {
            ", "@ + call_args
        }) + ")"@
    } else {
        f.fn_name@ + "("@ + call_args + ")"@
    }
}

/// `static ` or `class ` for a type's function that is not a method.
pub open spec fn static_class_func(f: SwiftCallsRust) -> Seq<char> {
    if f.associated_type is Some && !f.is_method && !f.is_swift_initializer {
        if f.is_copy_method_on_opaque_type {
            "static "@
        } else {
            "class "@
        }
    } else {
        Seq::empty()
    }
}

/// `public func name` or the initializer's `public .. init`.
pub open spec fn public_func_name(f: SwiftCallsRust) -> Seq<char> {
    if f.is_swift_initializer {
        if f.is_copy_method_on_opaque_type {
            "public init"@
        } else if f.failable == Some(FailableInitializerType::Optional) {
            "public convenience init?"@
        } else {
            "public convenience init"@
        }
    } else {
        "public func "@ + match f.swift_name_override {
            Some(n) => n@,
            None => f.fn_name@,
        }
    }
}

pub open spec fn maybe_throws(f: SwiftCallsRust) -> Seq<char> {
    if f.failable == Some(FailableInitializerType::Throwing) {
        " throws"@
    } else {
        Seq::empty()
    }
}

pub open spec fn indentation(f: SwiftCallsRust) -> Seq<char> {
    if f.associated_type is Some {
        "    "@
    } else {
        Seq::empty()
    }
}

/// The struct reference name of the written return type, if it is one.
pub open spec fn return_struct_ref(f: SwiftCallsRust) -> Option<Seq<char>> {
    match f.output {
        Some(rt) => struct_ref(rt.opaque),
        None => None,
    }
}

/// A returned FFI value of a bridged type converted to Swift.
pub open spec fn ffi_return_to_swift(
    f: SwiftCallsRust,
    t: ExprTemplate,
    expr: Seq<char>,
    structs: bool,
    path: Seq<char>,
) -> Seq<char> {
    if structs && return_struct_ref(f) is Some {
        return_struct_ref(f).unwrap() + "(ptr: "@ + expr + ")"@
    } else {
        t.spec_apply(expr, 0, path)
    }
}

/// The FFI call with its return value converted to Swift.
pub open spec fn converted_call(f: SwiftCallsRust, call: Seq<char>, structs: bool, path: Seq<char>) -> Seq<
    char,
> {
    if f.is_async {
        call
    } else if f.is_swift_initializer {
        match f.ret {
            ReturnValue::BuiltIn(b) => if f.failable == Some(FailableInitializerType::Throwing) {
                b.to_swift_throwing_init.spec_apply(call, 0, path)
            } else {
                call
            },
            _ => call,
        }
    } else {
        match f.ret {
            ReturnValue::BuiltIn(b) => ffi_return_to_swift(f, b.to_swift, call, structs, path),
            ReturnValue::Shared => call,
            ReturnValue::Opaque { ty, full_ty, reference, rust_host } => if f.host_lang
                == HostLang::Swift {
                call
            } else if rust_host {
                ty@ + "(ptr: "@ + call + ", isOwned: "@ + (if reference {
                    "false"@
                } else {
                    "true"@
                }) + ")"@
            } else {
                "Unmanaged<"@ + full_ty@ + ">.fromOpaque("@ + call + ").takeRetainedValue()"@
            },
        }
    }
}

pub open spec fn returns_null(f: SwiftCallsRust) -> bool {
    f.ret matches ReturnValue::BuiltIn(b) && b.is_null
}

/// The call wrapped for a `&str` or `Option<&str>` argument.
pub open spec fn wrap_str(a: CallArg, call: Seq<char>, mr: Seq<char>, ind: Seq<char>) -> Seq<char> {
    if a.kind == ArgKind::Receiver {
        call
    } else if a.str_arg == StrArg::Str {
        mr + a.name@ + ".toRustStr({ "@ + a.name@ + "AsRustStr in\n"@ + ind + "        "@ + call
            + "\n"@ + ind + "    })"@
    } else if a.str_arg == StrArg::OptionalStr {
        mr + "optionalRustStrToRustStr("@ + a.name@ + ", { "@ + a.name@ + "AsRustStr in\n"@ + ind
            + "        "@ + call + "\n"@ + ind + "    })"@
    } else {
        call
    }
}

/// The call wrapped for the string arguments among the first `n` inputs.
pub open spec fn wrap_strs(
    args: Seq<CallArg>,
    n: int,
    call: Seq<char>,
    mr: Seq<char>,
    ind: Seq<char>,
) -> Seq<char>
    decreases n,
{
    if n <= 0 || n > args.len() {
        call
    } else {
        wrap_str(args[n - 1], wrap_strs(args, n - 1, call, mr, ind), mr, ind)
    }
}

/// The body of an initializer around the call.
pub open spec fn init_call(f: SwiftCallsRust, call: Seq<char>) -> Seq<char> {
    if f.is_swift_initializer {
        if f.is_copy_method_on_opaque_type {
            "self.bytes = "@ + call
        } else if f.failable == Some(FailableInitializerType::Optional) {
            "guard let val = "@ + call + " else { return nil }; self.init(ptr: val)"@
        } else if f.failable is None {
            "self.init(ptr: "@ + call + ")"@
        } else {
            call
        }
    } else {
        call
    }
}

/// ` -> Type` (with `throws` for a `Result`) for a written return type.
pub open spec fn swift_return_type(f: SwiftCallsRust, structs: bool) -> Seq<char> {
    match f.output {
        None => Seq::empty(),
        Some(rt) => if f.host_lang == HostLang::Swift && rt.zero_bytes {
            Seq::empty()
        } else {
            " "@ + (if rt.is_result {
                "throws "@
            } else {
                Seq::empty()
            }) + "-> "@ + (if structs && struct_ref(rt.opaque) is Some {
                struct_ref(rt.opaque).unwrap()
            } else {
                rt.swift_type@
            })
        },
    }
}

/// The whole FFI call, converted and wrapped, that the Swift function runs.
pub open spec fn call_rust(f: SwiftCallsRust, structs: bool, path: Seq<char>) -> Seq<char> {
    let call_args = join(
        call_arg_entries(f, f.args@.len() as int, true, false, structs, path),
        ", "@,
    );
    let base = "__swift_bridge__"@ + type_name_segment(f) + "$"@ + call_fn(f, call_args);
    let mr = if returns_null(f) || f.is_swift_initializer {
        Seq::empty()
    } else {
        "return "@
    };
    init_call(
        f,
        wrap_strs(f.args@, f.args@.len() as int, converted_call(f, base, structs, path), mr, indentation(f)),
    )
}

/// The Swift signature up to the parameter list's closing parenthesis.
pub open spec fn signature_head(f: SwiftCallsRust, structs: bool) -> Seq<char> {
    indentation(f) + static_class_func(f) + public_func_name(f) + f.swift_generics@ + "("@ + join(
        param_entries(f.args@, f.args@.len() as int, false, structs),
        ", "@,
    ) + ")"@
}

/// The return type written in the signature.
pub open spec fn maybe_ret(f: SwiftCallsRust, structs: bool) -> Seq<char> {
    if f.is_swift_initializer {
        Seq::empty()
    } else {
        swift_return_type(f, structs)
    }
}

/// The Swift function of a function that is not `async`.
pub open spec fn sync_definition(f: SwiftCallsRust, structs: bool, path: Seq<char>) -> Seq<char> {
    signature_head(f, structs) + maybe_throws(f) + maybe_ret(f, structs) + " {\n"@ + indentation(f)
        + "    "@ + call_rust(f, structs, path) + "\n"@ + indentation(f) + "}"@
}


/// The Swift type of the value an async call completes with.
pub open spec fn async_ret_type(f: SwiftCallsRust, b: BuiltInReturn, structs: bool) -> Seq<char> {
    if structs && return_struct_ref(f) is Some {
        return_struct_ref(f).unwrap()
    } else {
        b.async_swift_type@
    }
}

pub open spec fn cb_wrapper_ty(f: SwiftCallsRust) -> Seq<char> {
    "CbWrapper"@ + type_name_segment(f) + "$"@ + f.fn_name@
}

pub open spec fn async_error(b: BuiltInReturn) -> Seq<char> {
    if b.async_result_callback is Some {
        "Error"@
    } else {
        "Never"@
    }
}

/// The completion of the async continuation with `rustFnRetVal`.
pub open spec fn run_wrapper_cb(f: SwiftCallsRust, b: BuiltInReturn, structs: bool, path: Seq<char>) -> Seq<
    char,
> {
    match b.async_result_callback {
        Some(cb) => cb@,
        None => "wrapper.cb(.success("@ + (if b.is_null {
            "()"@
        } else {
            ffi_return_to_swift(f, b.to_swift_result_ffi, "rustFnRetVal"@, structs, path)
        }) + "))"@,
    }
}

/// The class that holds the continuation of an async call.
pub open spec fn callback_wrapper(ind: Seq<char>, cb_ty: Seq<char>, rt: Seq<char>, err: Seq<char>) -> Seq<
    char,
> {
    ind + "class "@ + cb_ty + " {\n"@ + ind + "    var cb: (Result<"@ + rt + ", "@ + err
        + ">) -> ()\n"@ + ind + "\n"@ + ind + "    public init(cb: @escaping (Result<"@ + rt + ", "@
        + err + ">) -> ()) {\n"@ + ind + "        self.cb = cb\n"@ + ind + "    }\n"@ + ind + "}"@
}

/// The body of an async function, before it is indented.
pub open spec fn async_fn_body(f: SwiftCallsRust, b: BuiltInReturn, structs: bool, path: Seq<char>) -> Seq<
    char,
> {
    let rt = async_ret_type(f, b, structs);
    let err = async_error(b);
    let cb_ty = cb_wrapper_ty(f);
    let sig_ret = if b.is_null {
        Seq::empty()
    } else {
        ", rustFnRetVal: "@ + b.result_ffi_swift_type@
    };
    let maybe_try = if b.async_result_callback is Some {
        " try "@
    } else {
        " "@
    };
    let cont = if b.async_result_callback is Some {
        "withCheckedThrowingContinuation"@
    } else {
        "withCheckedContinuation"@
    };
    "func onComplete(cbWrapperPtr: UnsafeMutableRawPointer?"@ + sig_ret + ") {\n    let wrapper = Unmanaged<"@
        + cb_ty + ">.fromOpaque(cbWrapperPtr!).takeRetainedValue()\n    "@ + run_wrapper_cb(
        f,
        b,
        structs,
        path,
    ) + "\n}\n\nreturn"@ + maybe_try + "await "@ + cont + "({ (continuation: CheckedContinuation<"@ + rt
        + ", "@ + err + ">) in\n    let callback = { rustFnRetVal in\n        continuation.resume(with: rustFnRetVal)\n    }\n\n    let wrapper = "@
        + cb_ty + "(cb: callback)\n    let wrapperPtr = Unmanaged.passRetained(wrapper).toOpaque()\n\n    "@
        + call_rust(f, structs, path) + "\n})"@
}

/// A line of the async body, indented (an empty line stays empty).
pub open spec fn indent_line(line: Seq<char>, ind: Seq<char>) -> Seq<char> {
    if line.len() > 0 {
        ind + "    "@ + line + "\n"@
    } else {
        "\n"@
    }
}

/// A line without the `\r` of a `\r\n` line ending.
pub open spec fn strip_cr(l: Seq<char>) -> Seq<char> {
    if l.len() > 0 && l.last() == '\r' {
        l.drop_last()
    } else {
        l
    }
}

/// The lines of `s[i..]` (as `str::lines` splits them), each indented.
pub open spec fn indent_lines(s: Seq<char>, i: int, ind: Seq<char>) -> Seq<char>
    decreases s.len() - i,
{
    if i < 0 || i >= s.len() {
        Seq::empty()
    } else {
        match find_from(s, '\n', i) {
            Some(k) => {
                proof {
                    lemma_find_from(s, '\n', i);
                }
                indent_line(strip_cr(s.subrange(i, k)), ind) + indent_lines(s, k + 1, ind)
            },
            None => indent_line(s.subrange(i, s.len() as int), ind),
        }
    }
}

/// The Swift function of an async function.
pub open spec fn async_definition(f: SwiftCallsRust, b: BuiltInReturn, structs: bool, path: Seq<char>) -> Seq<
    char,
> {
    signature_head(f, structs) + " async"@ + maybe_ret(f, structs) + " {\n"@ + trim_end(
        indent_lines(async_fn_body(f, b, structs, path), 0, indentation(f)),
    ) + "\n"@ + indentation(f) + "}\n"@ + callback_wrapper(
        indentation(f),
        cb_wrapper_ty(f),
        async_ret_type(f, b, structs),
        async_error(b),
    )
}

/// The inputs on which the code generation is defined: an async function
/// and a throwing initializer return a bridged type, and a Rust function
/// that returns neither a bridged type nor `()` writes its return type.
pub open spec fn well_formed(f: SwiftCallsRust) -> bool {
    &&& f.is_async ==> f.ret is BuiltIn
    &&& (f.is_swift_initializer && f.failable == Some(FailableInitializerType::Throwing))
        ==> f.ret is BuiltIn
    &&& (!f.is_async && !f.is_swift_initializer && !(f.ret is BuiltIn) && f.host_lang
        == HostLang::Rust) ==> f.output is Some
}

/// The Swift function generated for `f`.
pub open spec fn swift_calls_rust(f: SwiftCallsRust, path: Seq<char>, repr: OpaqueRustRefSwiftRepr) -> Seq<
    char,
> {
    let structs = repr == OpaqueRustRefSwiftRepr::Struct;
    if f.is_async {
        match f.ret {
            ReturnValue::BuiltIn(b) => async_definition(f, b, structs, path),
            _ => Seq::empty(),
        }
    } else {
        sync_definition(f, structs, path)
    }
}


fn type_name_segment_exec(f: &SwiftCallsRust) -> (r: String)
    ensures
        r@ == type_name_segment(*f),
{
    match &f.associated_type {
        Some(t) => {
            let mut r = String::from_str("$");
            push_str(&mut r, t.as_str());
            r
        },
        None => String::new(),
    }
}

fn call_fn_exec(f: &SwiftCallsRust, call_args: &str) -> (r: String)
    ensures
        r@ == call_fn(*f, call_args@),
{
    let mut r = f.fn_name.clone();
    if f.is_async {
        push_str(&mut r, "(wrapperPtr, onComplete");
        if f.args.len() != 0 {
            push_str(&mut r, ", ");
            push_str(&mut r, call_args);
        }
        push_str(&mut r, ")");
    } else {
        push_str(&mut r, "(");
        push_str(&mut r, call_args);
        push_str(&mut r, ")");
    }
    r
}

fn static_class_func_exec(f: &SwiftCallsRust) -> (r: &'static str)
    ensures
        r@ == static_class_func(*f),
{
    proof {
        reveal_strlit("");
    }
    if f.associated_type.is_some() && !f.is_method && !f.is_swift_initializer {
        if f.is_copy_method_on_opaque_type {
            "static "
        } else {
            "class "
        }
    } else {
        ""
    }
}

fn public_func_name_exec(f: &SwiftCallsRust) -> (r: String)
    ensures
        r@ == public_func_name(*f),
{
    if f.is_swift_initializer {
        if f.is_copy_method_on_opaque_type {
            String::from_str("public init")
        } else if f.failable == Some(FailableInitializerType::Optional) {
            String::from_str("public convenience init?")
        } else {
            String::from_str("public convenience init")
        }
    } else {
        let mut r = String::from_str("public func ");
        match &f.swift_name_override {
            Some(n) => push_str(&mut r, n.as_str()),
            None => push_str(&mut r, f.fn_name.as_str()),
        }
        r
    }
}

fn maybe_throws_exec(f: &SwiftCallsRust) -> (r: &'static str)
    ensures
        r@ == maybe_throws(*f),
{
    proof {
        reveal_strlit("");
    }
    if f.failable == Some(FailableInitializerType::Throwing) {
        " throws"
    } else {
        ""
    }
}

fn indentation_exec(f: &SwiftCallsRust) -> (r: &'static str)
    ensures
        r@ == indentation(*f),
{
    proof {
        reveal_strlit("");
    }
    if f.associated_type.is_some() {
        "    "
    } else {
        ""
    }
}

/// The struct reference name of the written return type, if it is one.
pub fn return_opaque_rust_struct_ref(f: &SwiftCallsRust) -> (r: Option<&String>)
    ensures
        r matches Some(s) ==> return_struct_ref(*f) == Some(s@),
        r is None ==> return_struct_ref(*f) is None,
{
    match &f.output {
        Some(rt) => opaque_rust_struct_ref(&rt.opaque),
        None => None,
    }
}

/// A returned FFI value converted to Swift with the template `t` (a struct
/// reference is built from the pointer instead).
pub fn convert_ffi_return_value_to_swift_value(
    f: &SwiftCallsRust,
    t: &ExprTemplate,
    expr: &str,
    swift_bridge_path: &str,
    opaque_ref_repr: OpaqueRustRefSwiftRepr,
) -> (r: String)
    ensures
        r@ == ffi_return_to_swift(
            *f,
            *t,
            expr@,
            opaque_ref_repr == OpaqueRustRefSwiftRepr::Struct,
            swift_bridge_path@,
        ),
{
    if opaque_ref_repr == OpaqueRustRefSwiftRepr::Struct {
        if let Some(name) = return_opaque_rust_struct_ref(f) {
            let mut r = name.clone();
            push_str(&mut r, "(ptr: ");
            push_str(&mut r, expr);
            push_str(&mut r, ")");
            return r;
        }
    }
    t.apply(expr, 0, swift_bridge_path)
}

fn converted_call_exec(
    f: &SwiftCallsRust,
    call: String,
    swift_bridge_path: &str,
    opaque_ref_repr: OpaqueRustRefSwiftRepr,
) -> (r: String)
    ensures
        r@ == converted_call(
            *f,
            call@,
            opaque_ref_repr == OpaqueRustRefSwiftRepr::Struct,
            swift_bridge_path@,
        ),
{
    if f.is_async {
        call
    } else if f.is_swift_initializer {
        match &f.ret {
            ReturnValue::BuiltIn(b) => if f.failable == Some(FailableInitializerType::Throwing) {
                b.to_swift_throwing_init.apply(call.as_str(), 0, swift_bridge_path)
            } else {
                call
            },
            _ => call,
        }
    } else {
        match &f.ret {
            ReturnValue::BuiltIn(b) => convert_ffi_return_value_to_swift_value(
                f,
                &b.to_swift,
                call.as_str(),
                swift_bridge_path,
                opaque_ref_repr,
            ),
            ReturnValue::Shared => call,
            ReturnValue::Opaque { ty, full_ty, reference, rust_host } => {
                if f.host_lang == HostLang::Swift {
                    call
                } else if *rust_host {
                    let mut r = ty.clone();
                    push_str(&mut r, "(ptr: ");
                    push_str(&mut r, call.as_str());
                    push_str(&mut r, ", isOwned: ");
                    push_str(
                        &mut r,
                        if *reference {
                            "false"
                        } else {
                            "true"
                        },
                    );
                    push_str(&mut r, ")");
                    r
                } else {
                    let mut r = String::from_str("Unmanaged<");
                    push_str(&mut r, full_ty.as_str());
                    push_str(&mut r, ">.fromOpaque(");
                    push_str(&mut r, call.as_str());
                    push_str(&mut r, ").takeRetainedValue()");
                    r
                }
            },
        }
    }
}

fn wrap_str_exec(a: &CallArg, call: String, mr: &str, ind: &str) -> (r: String)
    ensures
        r@ == wrap_str(*a, call@, mr@, ind@),
{
    if a.kind == ArgKind::Receiver {
        return call;
    }
    if a.str_arg == StrArg::Str {
        let mut r = String::from_str(mr);
        push_str(&mut r, a.name.as_str());
        push_str(&mut r, ".toRustStr({ ");
        push_str(&mut r, a.name.as_str());
        push_str(&mut r, "AsRustStr in\n");
        push_str(&mut r, ind);
        push_str(&mut r, "        ");
        push_str(&mut r, call.as_str());
        push_str(&mut r, "\n");
        push_str(&mut r, ind);
        push_str(&mut r, "    })");
        r
    } else if a.str_arg == StrArg::OptionalStr {
        let mut r = String::from_str(mr);
        push_str(&mut r, "optionalRustStrToRustStr(");
        push_str(&mut r, a.name.as_str());
        push_str(&mut r, ", { ");
        push_str(&mut r, a.name.as_str());
        push_str(&mut r, "AsRustStr in\n");
        push_str(&mut r, ind);
        push_str(&mut r, "        ");
        push_str(&mut r, call.as_str());
        push_str(&mut r, "\n");
        push_str(&mut r, ind);
        push_str(&mut r, "    })");
        r
    } else {
        call
    }
}

fn init_call_exec(f: &SwiftCallsRust, call: String) -> (r: String)
    ensures
        r@ == init_call(*f, call@),
{
    if f.is_swift_initializer {
        if f.is_copy_method_on_opaque_type {
            let mut r = String::from_str("self.bytes = ");
            push_str(&mut r, call.as_str());
            r
        } else if f.failable == Some(FailableInitializerType::Optional) {
            let mut r = String::from_str("guard let val = ");
            push_str(&mut r, call.as_str());
            push_str(&mut r, " else { return nil }; self.init(ptr: val)");
            r
        } else if f.failable.is_none() {
            let mut r = String::from_str("self.init(ptr: ");
            push_str(&mut r, call.as_str());
            push_str(&mut r, ")");
            r
        } else {
            call
        }
    } else {
        call
    }
}

/// ` -> Type` for the written return type (`throws` for a `Result`; nothing
/// for a zero-byte type returned by Swift).
pub fn to_swift_return_type(f: &SwiftCallsRust, opaque_ref_repr: OpaqueRustRefSwiftRepr) -> (r: String)
    ensures
        r@ == swift_return_type(*f, opaque_ref_repr == OpaqueRustRefSwiftRepr::Struct),
{
    match &f.output {
        None => String::new(),
        Some(rt) => {
            if f.host_lang == HostLang::Swift && rt.zero_bytes {
                return String::new();
            }
            let mut r = String::from_str(" ");
            if rt.is_result {
                push_str(&mut r, "throws ");
            }
            push_str(&mut r, "-> ");
            let structs = opaque_ref_repr == OpaqueRustRefSwiftRepr::Struct;
            match opaque_rust_struct_ref(&rt.opaque) {
                Some(name) => if structs {
                    push_str(&mut r, name.as_str())
                } else {
                    push_str(&mut r, rt.swift_type.as_str())
                },
                None => push_str(&mut r, rt.swift_type.as_str()),
            }
            r
        },
    }
}

fn call_rust_exec(f: &SwiftCallsRust, swift_bridge_path: &str, opaque_ref_repr: OpaqueRustRefSwiftRepr) -> (r:
    String)
    ensures
        r@ == call_rust(*f, opaque_ref_repr == OpaqueRustRefSwiftRepr::Struct, swift_bridge_path@),
{
    let ghost structs = opaque_ref_repr == OpaqueRustRefSwiftRepr::Struct;
    let call_args = to_swift_call_args(f, true, false, swift_bridge_path, opaque_ref_repr);
    let mut base = String::from_str("__swift_bridge__");
    let seg = type_name_segment_exec(f);
    push_str(&mut base, seg.as_str());
    push_str(&mut base, "$");
    let cf = call_fn_exec(f, call_args.as_str());
    push_str(&mut base, cf.as_str());
    assert(base@ =~= "__swift_bridge__"@ + type_name_segment(*f) + "$"@ + call_fn(*f, call_args@));
    let mut call = converted_call_exec(f, base, swift_bridge_path, opaque_ref_repr);
    let null = match &f.ret {
        ReturnValue::BuiltIn(b) => b.is_null,
        _ => false,
    };
    let mr = if null || f.is_swift_initializer {
        ""
    } else {
        "return "
    };
    let ind = indentation_exec(f);
    proof {
        reveal_strlit("");
    }
    assert(mr@ == (if returns_null(*f) || f.is_swift_initializer {
        Seq::<char>::empty()
    } else {
        "return "@
    }));
    let ghost conv = call@;
    let mut i: usize = 0;
    while i < f.args.len()
        invariant
            i <= f.args@.len(),
            call@ == wrap_strs(f.args@, i as int, conv, mr@, ind@),
        decreases f.args.len() - i,
    {
        call = wrap_str_exec(&f.args[i], call, mr, ind);
        i = i + 1;
    }
    init_call_exec(f, call)
}

fn signature_head_exec(f: &SwiftCallsRust, opaque_ref_repr: OpaqueRustRefSwiftRepr) -> (r: String)
    ensures
        r@ == signature_head(*f, opaque_ref_repr == OpaqueRustRefSwiftRepr::Struct),
{
    let params = to_swift_param_names_and_types(f, false, opaque_ref_repr);
    let mut r = String::from_str(indentation_exec(f));
    push_str(&mut r, static_class_func_exec(f));
    let name = public_func_name_exec(f);
    push_str(&mut r, name.as_str());
    push_str(&mut r, f.swift_generics.as_str());
    push_str(&mut r, "(");
    push_str(&mut r, params.as_str());
    push_str(&mut r, ")");
    r
}

fn maybe_ret_exec(f: &SwiftCallsRust, opaque_ref_repr: OpaqueRustRefSwiftRepr) -> (r: String)
    ensures
        r@ == maybe_ret(*f, opaque_ref_repr == OpaqueRustRefSwiftRepr::Struct),
{
    if f.is_swift_initializer {
        String::new()
    } else {
        to_swift_return_type(f, opaque_ref_repr)
    }
}

fn sync_definition_exec(f: &SwiftCallsRust, swift_bridge_path: &str, opaque_ref_repr: OpaqueRustRefSwiftRepr) -> (r:
    String)
    ensures
        r@ == sync_definition(
            *f,
            opaque_ref_repr == OpaqueRustRefSwiftRepr::Struct,
            swift_bridge_path@,
        ),
{
    let mut r = signature_head_exec(f, opaque_ref_repr);
    push_str(&mut r, maybe_throws_exec(f));
    let ret = maybe_ret_exec(f, opaque_ref_repr);
    push_str(&mut r, ret.as_str());
    push_str(&mut r, " {\n");
    let ind = indentation_exec(f);
    push_str(&mut r, ind);
    push_str(&mut r, "    ");
    let call = call_rust_exec(f, swift_bridge_path, opaque_ref_repr);
    push_str(&mut r, call.as_str());
    push_str(&mut r, "\n");
    push_str(&mut r, ind);
    push_str(&mut r, "}");
    r
}


/// The Swift type of the value an async call completes with (a struct
/// reference for an immutable reference to an opaque Rust type).
pub fn swift_return_type_for_bridged_type(
    f: &SwiftCallsRust,
    b: &BuiltInReturn,
    opaque_ref_repr: OpaqueRustRefSwiftRepr,
) -> (r: String)
    ensures
        r@ == async_ret_type(*f, *b, opaque_ref_repr == OpaqueRustRefSwiftRepr::Struct),
{
    if opaque_ref_repr == OpaqueRustRefSwiftRepr::Struct {
        if let Some(name) = return_opaque_rust_struct_ref(f) {
            return name.clone();
        }
    }
    b.async_swift_type.clone()
}

fn run_wrapper_cb_exec(
    f: &SwiftCallsRust,
    b: &BuiltInReturn,
    swift_bridge_path: &str,
    opaque_ref_repr: OpaqueRustRefSwiftRepr,
) -> (r: String)
    ensures
        r@ == run_wrapper_cb(
            *f,
            *b,
            opaque_ref_repr == OpaqueRustRefSwiftRepr::Struct,
            swift_bridge_path@,
        ),
{
    match &b.async_result_callback {
        Some(cb) => cb.clone(),
        None => {
            let mut r = String::from_str("wrapper.cb(.success(");
            if b.is_null {
                push_str(&mut r, "()");
            } else {
                let v = convert_ffi_return_value_to_swift_value(
                    f,
                    &b.to_swift_result_ffi,
                    "rustFnRetVal",
                    swift_bridge_path,
                    opaque_ref_repr,
                );
                push_str(&mut r, v.as_str());
            }
            push_str(&mut r, "))");
            r
        },
    }
}

fn callback_wrapper_exec(ind: &str, cb_ty: &str, rt: &str, err: &str) -> (r: String)
    ensures
        r@ == callback_wrapper(ind@, cb_ty@, rt@, err@),
{
    let mut r = String::from_str(ind);
    push_str(&mut r, "class ");
    push_str(&mut r, cb_ty);
    push_str(&mut r, " {\n");
    push_str(&mut r, ind);
    push_str(&mut r, "    var cb: (Result<");
    push_str(&mut r, rt);
    push_str(&mut r, ", ");
    push_str(&mut r, err);
    push_str(&mut r, ">) -> ()\n");
    push_str(&mut r, ind);
    push_str(&mut r, "\n");
    push_str(&mut r, ind);
    push_str(&mut r, "    public init(cb: @escaping (Result<");
    push_str(&mut r, rt);
    push_str(&mut r, ", ");
    push_str(&mut r, err);
    push_str(&mut r, ">) -> ()) {\n");
    push_str(&mut r, ind);
    push_str(&mut r, "        self.cb = cb\n");
    push_str(&mut r, ind);
    push_str(&mut r, "    }\n");
    push_str(&mut r, ind);
    push_str(&mut r, "}");
    r
}

fn async_fn_body_exec(
    f: &SwiftCallsRust,
    b: &BuiltInReturn,
    swift_bridge_path: &str,
    opaque_ref_repr: OpaqueRustRefSwiftRepr,
) -> (r: String)
    ensures
        r@ == async_fn_body(
            *f,
            *b,
            opaque_ref_repr == OpaqueRustRefSwiftRepr::Struct,
            swift_bridge_path@,
        ),
{
    let rt = swift_return_type_for_bridged_type(f, b, opaque_ref_repr);
    let is_result = b.async_result_callback.is_some();
    let err = if is_result {
        "Error"
    } else {
        "Never"
    };
    let mut cb_ty = String::from_str("CbWrapper");
    let seg = type_name_segment_exec(f);
    push_str(&mut cb_ty, seg.as_str());
    push_str(&mut cb_ty, "$");
    push_str(&mut cb_ty, f.fn_name.as_str());
    let run_cb = run_wrapper_cb_exec(f, b, swift_bridge_path, opaque_ref_repr);
    let call = call_rust_exec(f, swift_bridge_path, opaque_ref_repr);
    let mut r = String::from_str("func onComplete(cbWrapperPtr: UnsafeMutableRawPointer?");
    if !b.is_null {
        push_str(&mut r, ", rustFnRetVal: ");
        push_str(&mut r, b.result_ffi_swift_type.as_str());
    }
    let ghost r1 = r@;
    push_str(&mut r, ") {\n    let wrapper = Unmanaged<");
    push_str(&mut r, cb_ty.as_str());
    push_str(&mut r, ">.fromOpaque(cbWrapperPtr!).takeRetainedValue()\n    ");
    push_str(&mut r, run_cb.as_str());
    push_str(&mut r, "\n}\n\nreturn");
    push_str(
        &mut r,
        if is_result {
            " try "
        } else {
            " "
        },
    );
    push_str(&mut r, "await ");
    push_str(
        &mut r,
        if is_result {
            "withCheckedThrowingContinuation"
        } else {
            "withCheckedContinuation"
        },
    );
    let ghost r2 = r@;
    push_str(&mut r, "({ (continuation: CheckedContinuation<");
    push_str(&mut r, rt.as_str());
    push_str(&mut r, ", ");
    push_str(&mut r, err);
    push_str(
        &mut r,
        ">) in\n    let callback = { rustFnRetVal in\n        continuation.resume(with: rustFnRetVal)\n    }\n\n    let wrapper = ",
    );
    push_str(&mut r, cb_ty.as_str());
    push_str(
        &mut r,
        "(cb: callback)\n    let wrapperPtr = Unmanaged.passRetained(wrapper).toOpaque()\n\n    ",
    );
    push_str(&mut r, call.as_str());
    push_str(&mut r, "\n})");
    proof {
        reveal_strlit("");
        assert(cb_ty@ =~= cb_wrapper_ty(*f));
    }
    r
}

/// Indents each line of `s` (see `indent_lines`).
fn indent_lines_exec(s: &str, ind: &str) -> (r: String)
    ensures
        r@ == indent_lines(s@, 0, ind@),
{
    let cs = chars_of(s);
    let mut r = String::new();
    let mut i: usize = 0;
    proof {
        reveal_strlit("");
    }
    while i < cs.len()
        invariant
            i <= cs@.len(),
            cs@ == s@,
            r@ + indent_lines(s@, i as int, ind@) == indent_lines(s@, 0, ind@),
        decreases cs.len() - i,
    {
        let ghost before = r@;
        proof {
            lemma_find_from(cs@, '\n', i as int);
        }
        match find_char_from(&cs, '\n', i) {
            Some(k) => {
                let mut e = k;
                if e > i && cs[e - 1] == '\r' {
                    e = e - 1;
                }
                let line = string_from_chars(&crate::text::subvec(&cs, i, e));
                proof {
                    assert(line@ =~= strip_cr(s@.subrange(i as int, k as int)));
                }
                if e > i {
                    push_str(&mut r, ind);
                    push_str(&mut r, "    ");
                    push_str(&mut r, line.as_str());
                    push_str(&mut r, "\n");
                } else {
                    push_str(&mut r, "\n");
                }
                proof {
                    assert(r@ =~= before + indent_line(
                        strip_cr(s@.subrange(i as int, k as int)),
                        ind@,
                    ));
                    assert(r@ + indent_lines(s@, k + 1, ind@) =~= before + indent_lines(
                        s@,
                        i as int,
                        ind@,
                    ));
                }
                i = k + 1;
            },
            None => {
                let line = string_from_chars(&crate::text::subvec(&cs, i, cs.len()));
                if cs.len() > i {
                    push_str(&mut r, ind);
                    push_str(&mut r, "    ");
                    push_str(&mut r, line.as_str());
                    push_str(&mut r, "\n");
                }
                proof {
                    assert(r@ =~= before + indent_lines(s@, i as int, ind@));
                    assert(indent_lines(s@, cs@.len() as int, ind@) =~= Seq::<char>::empty());
                    assert(r@ + indent_lines(s@, cs@.len() as int, ind@) =~= r@);
                }
                i = cs.len();
            },
        }
    }
    proof {
        assert(indent_lines(s@, i as int, ind@) =~= Seq::<char>::empty());
        assert(r@ + Seq::<char>::empty() =~= r@);
    }
    r
}

fn async_definition_exec(
    f: &SwiftCallsRust,
    b: &BuiltInReturn,
    swift_bridge_path: &str,
    opaque_ref_repr: OpaqueRustRefSwiftRepr,
) -> (r: String)
    ensures
        r@ == async_definition(
            *f,
            *b,
            opaque_ref_repr == OpaqueRustRefSwiftRepr::Struct,
            swift_bridge_path@,
        ),
{
    let ind = indentation_exec(f);
    let body = async_fn_body_exec(f, b, swift_bridge_path, opaque_ref_repr);
    let indented = indent_lines_exec(body.as_str(), ind);
    let trimmed = string_from_chars(&vec_trim_end(&chars_of(indented.as_str())));
    let mut r = signature_head_exec(f, opaque_ref_repr);
    push_str(&mut r, " async");
    let ret = maybe_ret_exec(f, opaque_ref_repr);
    push_str(&mut r, ret.as_str());
    push_str(&mut r, " {\n");
    push_str(&mut r, trimmed.as_str());
    push_str(&mut r, "\n");
    push_str(&mut r, ind);
    push_str(&mut r, "}\n");
    let rt = swift_return_type_for_bridged_type(f, b, opaque_ref_repr);
    let mut cb_ty = String::from_str("CbWrapper");
    let seg = type_name_segment_exec(f);
    push_str(&mut cb_ty, seg.as_str());
    push_str(&mut cb_ty, "$");
    push_str(&mut cb_ty, f.fn_name.as_str());
    let err = if b.async_result_callback.is_some() {
        "Error"
    } else {
        "Never"
    };
    let wrapper = callback_wrapper_exec(ind, cb_ty.as_str(), rt.as_str(), err);
    push_str(&mut r, wrapper.as_str());
    proof {
        assert(cb_ty@ =~= cb_wrapper_ty(*f));
    }
    r
}

/// The Swift function that calls the Rust function `f`, with immutable
/// references to opaque Rust types seen as `opaque_ref_repr`.
pub fn gen_func_swift_calls_rust_with_opaque_ref_repr(
    f: &SwiftCallsRust,
    swift_bridge_path: &str,
    opaque_ref_repr: OpaqueRustRefSwiftRepr,
) -> (r: String)
    requires
        well_formed(*f),
    ensures
        r@ == swift_calls_rust(*f, swift_bridge_path@, opaque_ref_repr),
{
    if f.is_async {
        match &f.ret {
            ReturnValue::BuiltIn(b) => async_definition_exec(f, b, swift_bridge_path, opaque_ref_repr),
            _ => String::new(),
        }
    } else {
        sync_definition_exec(f, swift_bridge_path, opaque_ref_repr)
    }
}

/// The Swift function that calls the Rust function `f`, with immutable
/// references to opaque Rust types seen as classes.
pub fn gen_func_swift_calls_rust(f: &SwiftCallsRust, swift_bridge_path: &str) -> (r: String)
    requires
        well_formed(*f),
    ensures
        r@ == swift_calls_rust(*f, swift_bridge_path@, OpaqueRustRefSwiftRepr::Class),
{
    gen_func_swift_calls_rust_with_opaque_ref_repr(f, swift_bridge_path, OpaqueRustRefSwiftRepr::Class)
}

/// The Swift function that calls the Rust function `f`, with immutable
/// references to opaque Rust types seen as structs.
pub fn gen_func_swift_calls_rust_with_struct_refs(f: &SwiftCallsRust, swift_bridge_path: &str) -> (r:
    String)
    requires
        well_formed(*f),
    ensures
        r@ == swift_calls_rust(*f, swift_bridge_path@, OpaqueRustRefSwiftRepr::Struct),
{
    gen_func_swift_calls_rust_with_opaque_ref_repr(f, swift_bridge_path, OpaqueRustRefSwiftRepr::Struct)
}


/// No typed input and no return type of `f` is an immutable reference to an
/// opaque Rust type.
pub open spec fn no_struct_refs(f: SwiftCallsRust) -> bool {
    &&& forall|k: int|
        0 <= k < f.args@.len() && f.args@[k].kind == ArgKind::Typed ==> struct_ref(
            #[trigger] f.args@[k].opaque,
        ) is None
    &&& return_struct_ref(f) is None
}

proof fn lemma_params_without_struct_refs(f: SwiftCallsRust, n: int, include_receiver: bool)
    requires
        no_struct_refs(f),
        0 <= n <= f.args@.len(),
    ensures
        param_entries(f.args@, n, include_receiver, true) == param_entries(
            f.args@,
            n,
            include_receiver,
            false,
        ),
    decreases n,
{
    if n > 0 {
        lemma_params_without_struct_refs(f, n - 1, include_receiver);
        let a = f.args@[n - 1];
        if a.kind == ArgKind::Typed {
            assert(struct_ref(a.opaque) is None);
        }
    }
}

proof fn lemma_call_args_without_struct_refs(
    f: SwiftCallsRust,
    n: int,
    include_receiver: bool,
    include_var_name: bool,
    path: Seq<char>,
)
    requires
        no_struct_refs(f),
        0 <= n <= f.args@.len(),
    ensures
        call_arg_entries(f, n, include_receiver, include_var_name, true, path) == call_arg_entries(
            f,
            n,
            include_receiver,
            include_var_name,
            false,
            path,
        ),
    decreases n,
{
    if n > 0 {
        lemma_call_args_without_struct_refs(f, n - 1, include_receiver, include_var_name, path);
        let a = f.args@[n - 1];
        if a.kind == ArgKind::Typed {
            assert(struct_ref(a.opaque) is None);
        }
    }
}

/// Seeing immutable opaque references as structs changes only the Swift
/// code of functions that take or return such a reference.
pub proof fn lemma_struct_refs_change_only_opaque_refs(f: SwiftCallsRust, path: Seq<char>)
    requires
        no_struct_refs(f),
    ensures
        swift_calls_rust(f, path, OpaqueRustRefSwiftRepr::Class) == swift_calls_rust(
            f,
            path,
            OpaqueRustRefSwiftRepr::Struct,
        ),
{
    let n = f.args@.len() as int;
    lemma_params_without_struct_refs(f, n, false);
    lemma_call_args_without_struct_refs(f, n, true, false, path);
    assert(call_rust(f, true, path) == call_rust(f, false, path));
    assert(signature_head(f, true) == signature_head(f, false));
    assert(maybe_ret(f, true) == maybe_ret(f, false));
}


/// A Rust-hosted function that returns an opaque Rust type wraps the
/// returned pointer in that Swift type with `isOwned: false` when the Rust
/// function returns a reference (Swift borrows the value and must not free
/// it) and `isOwned: true` when it returns the value itself.
pub proof fn lemma_opaque_return_ownership(
    f: SwiftCallsRust,
    path: Seq<char>,
    repr: OpaqueRustRefSwiftRepr,
)
    requires
        !f.is_async,
        !f.is_swift_initializer,
        f.host_lang == HostLang::Rust,
        f.ret is Opaque,
        f.ret->Opaque_rust_host,
    ensures
        ({
            let structs = repr == OpaqueRustRefSwiftRepr::Struct;
            let n = f.args@.len() as int;
            let base = "__swift_bridge__"@ + type_name_segment(f) + "$"@ + f.fn_name@ + "("@ + join(
                call_arg_entries(f, n, true, false, structs, path),
                ", "@,
            ) + ")"@;
            let wrapped = f.ret->Opaque_ty@ + "(ptr: "@ + base + ", isOwned: "@ + (if f.ret->Opaque_reference {
                "false"@
            } else {
                "true"@
            }) + ")"@;
            swift_calls_rust(f, path, repr) == signature_head(f, structs) + maybe_throws(f)
                + maybe_ret(f, structs) + " {\n"@ + indentation(f) + "    "@ + wrap_strs(
                f.args@,
                n,
                wrapped,
                "return "@,
                indentation(f),
            ) + "\n"@ + indentation(f) + "}"@
        }),
{
    let structs = repr == OpaqueRustRefSwiftRepr::Struct;
    let n = f.args@.len() as int;
    let call_args = join(call_arg_entries(f, n, true, false, structs, path), ", "@);
    let base = "__swift_bridge__"@ + type_name_segment(f) + "$"@ + call_fn(f, call_args);
    assert(call_fn(f, call_args) == f.fn_name@ + "("@ + call_args + ")"@);
    assert(base == "__swift_bridge__"@ + type_name_segment(f) + "$"@ + f.fn_name@ + "("@ + call_args
        + ")"@);
    assert(!returns_null(f));
    let wrapped = f.ret->Opaque_ty@ + "(ptr: "@ + base + ", isOwned: "@ + (if f.ret->Opaque_reference {
        "false"@
    } else {
        "true"@
    }) + ")"@;
    assert(converted_call(f, base, structs, path) == wrapped);
    let w = wrap_strs(f.args@, n, wrapped, "return "@, indentation(f));
    assert(init_call(f, w) == w);
    assert(call_rust(f, structs, path) == w);
    assert(swift_calls_rust(f, path, repr) == sync_definition(f, structs, path));
}

} // verus!
