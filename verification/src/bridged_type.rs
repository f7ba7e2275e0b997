//! Bridged types as the callback and codegen logic reads them: a Rust type
//! spelling, and per spelling a table of how swift-bridge renders it (C type,
//! Swift types, and expression conversions across the FFI boundary).
use vstd::prelude::*;
use crate::text::{decimal, push_decimal, push_str, str_eq};

verus! {

/// The language that implements a bridged function.
#[derive(Debug, Clone, Copy, PartialEq, Eq, Structural)]
pub enum HostLang {
    Rust,
    Swift,
}

impl HostLang {
    pub fn is_rust(&self) -> (r: bool)
        ensures
            r == (*self == HostLang::Rust),
    {
        match self {
            HostLang::Rust => true,
            HostLang::Swift => false,
        }
    }

    pub fn is_swift(&self) -> (r: bool)
        ensures
            r == (*self == HostLang::Swift),
    {
        match self {
            HostLang::Rust => false,
            HostLang::Swift => true,
        }
    }
}

/// Where a type occurs in generated code.
#[derive(Debug, Clone, Copy, PartialEq, Eq, Structural)]
pub enum TypePosition {
    FnArg(HostLang, usize),
    FnReturn(HostLang),
    SharedStructField,
    SwiftCallsRustAsyncOnCompleteReturnTy,
    ThrowingInit(HostLang),
    ResultFfiReturnType,
}

/// One piece of an expression template.
pub enum TemplatePiece {
    /// Literal text.
    Text(String),
    /// The expression being converted.
    Expr,
    /// The decimal index of the parameter the expression belongs to.
    Index,
    /// The path of the `swift_bridge` crate as seen from generated code.
    BridgePath,
}

/// A conversion of an expression into another expression (or a type
/// spelling), written as literal text around the expression.
pub struct ExprTemplate {
    pub pieces: Vec<TemplatePiece>,
}

pub open spec fn piece_text(p: TemplatePiece, expr: Seq<char>, idx: nat, path: Seq<char>) -> Seq<
    char,
> {
    match p {
        TemplatePiece::Text(t) => t@,
        TemplatePiece::Expr => expr,
        TemplatePiece::Index => decimal(idx),
        TemplatePiece::BridgePath => path,
    }
}

/// The text a template produces.
pub open spec fn apply_pieces(
    pieces: Seq<TemplatePiece>,
    expr: Seq<char>,
    idx: nat,
    path: Seq<char>,
) -> Seq<char>
    decreases pieces.len(),
{
    if pieces.len() == 0 {
        Seq::empty()
    } else {
        apply_pieces(pieces.drop_last(), expr, idx, path) + piece_text(
            pieces.last(),
            expr,
            idx,
            path,
        )
    }
}

impl ExprTemplate {
    pub open spec fn spec_apply(&self, expr: Seq<char>, idx: nat, path: Seq<char>) -> Seq<char> {
        apply_pieces(self.pieces@, expr, idx, path)
    }

    /// Fills the template in with `expr`, the parameter index and the bridge path.
    pub fn apply(&self, expr: &str, idx: usize, path: &str) -> (r: String)
        ensures
            r@ == self.spec_apply(expr@, idx as nat, path@),
    {
        let mut r = String::new();
        let mut i: usize = 0;
        while i < self.pieces.len()
            invariant
                i <= self.pieces@.len(),
                r@ == apply_pieces(self.pieces@.take(i as int), expr@, idx as nat, path@),
            decreases self.pieces.len() - i,
        {
            proof {
                assert(self.pieces@.take(i + 1).drop_last() =~= self.pieces@.take(i as int));
            }
            match &self.pieces[i] {
                TemplatePiece::Text(t) => push_str(&mut r, t.as_str()),
                TemplatePiece::Expr => push_str(&mut r, expr),
                TemplatePiece::Index => push_decimal(&mut r, idx),
                TemplatePiece::BridgePath => push_str(&mut r, path),
            }
            i = i + 1;
        }
        assert(self.pieces@.take(self.pieces@.len() as int) =~= self.pieces@);
        r
    }

    /// The template that leaves the expression unchanged.
    pub fn identity() -> (r: ExprTemplate)
        ensures
            r.pieces@.len() == 1,
            r.pieces@[0] is Expr,
            forall|e: Seq<char>, i: nat, p: Seq<char>| #[trigger] r.spec_apply(e, i, p) == e,
    {
        let mut pieces = Vec::new();
        pieces.push(TemplatePiece::Expr);
        let r = ExprTemplate { pieces };
        assert forall|e: Seq<char>, i: nat, p: Seq<char>| #[trigger] r.spec_apply(e, i, p) == e by {
            assert(r.pieces@.drop_last() =~= Seq::<TemplatePiece>::empty());
            assert(apply_pieces(r.pieces@.drop_last(), e, i, p) == Seq::<char>::empty());
            assert(Seq::<char>::empty() + e =~= e);
        }
        r
    }

    /// The template that always gives `text`.
    pub fn text(text: &str) -> (r: ExprTemplate)
        ensures
            forall|e: Seq<char>, i: nat, p: Seq<char>| #[trigger] r.spec_apply(e, i, p) == text@,
    {
        let mut pieces = Vec::new();
        pieces.push(TemplatePiece::Text(String::from_str(text)));
        let r = ExprTemplate { pieces };
        assert forall|e: Seq<char>, i: nat, p: Seq<char>| #[trigger] r.spec_apply(e, i, p)
            == text@ by {
            assert(r.pieces@.drop_last() =~= Seq::<TemplatePiece>::empty());
            assert(apply_pieces(r.pieces@.drop_last(), e, i, p) == Seq::<char>::empty());
            assert(Seq::<char>::empty() + text@ =~= text@);
        }
        r
    }
}

/// How swift-bridge renders one Rust type.
pub struct TypeRendering {
    /// The Rust type spelling this entry describes, as printed tokens.
    pub rust_type: String,
    /// The Rust type path used in generated Rust code.
    pub rust_type_path: String,
    /// The C header spelling.
    pub c_type: String,
    /// The Swift type of an argument of a Rust-implemented function.
    pub swift_rust_arg: String,
    /// The Swift type of an argument of a Swift-implemented function.
    pub swift_swift_arg: String,
    /// The Swift type returned by a Rust-implemented function.
    pub swift_rust_ret: String,
    /// The FFI-compatible Rust type (may name the bridge path).
    pub ffi_rust_type: ExprTemplate,
    /// A Swift argument expression converted for the FFI boundary.
    pub swift_to_ffi_arg: ExprTemplate,
    /// A Swift return expression converted for the FFI boundary.
    pub swift_to_ffi_ret: ExprTemplate,
    /// An FFI value converted to the Swift argument type.
    pub ffi_to_swift_arg: ExprTemplate,
    /// A Rust expression converted to its FFI representation.
    pub rust_to_ffi: ExprTemplate,
    /// An FFI value converted to the Rust type.
    pub ffi_to_rust: ExprTemplate,
    /// Whether the type holds an owned `String` anywhere inside.
    pub owned_string: bool,
    /// Whether the type holds a `&str` anywhere inside.
    pub ref_string: bool,
}

/// A Rust type used across the bridge, identified by its printed tokens.
pub struct BridgedType {
    pub rust_type: String,
}

impl BridgedType {
    pub open spec fn spec_is_null(&self) -> bool {
        self.rust_type@ == "()"@
    }

    /// Whether the type is `()`.
    pub fn is_null(&self) -> (r: bool)
        ensures
            r == self.spec_is_null(),
    {
        str_eq(self.rust_type.as_str(), "()")
    }

    /// The null type `()`.
    pub fn null() -> (r: BridgedType)
        ensures
            r.spec_is_null(),
    {
        BridgedType { rust_type: String::from_str("()") }
    }

    /// The bridged type spelled by `ty` (printed tokens).
    pub fn new_with_type(ty: &str) -> (r: BridgedType)
        ensures
            r.rust_type@ == ty@,
    {
        BridgedType { rust_type: String::from_str(ty) }
    }
}

/// The first rendering whose spelling is `ty`.
pub open spec fn find_rendering(reg: Seq<TypeRendering>, ty: Seq<char>) -> Option<TypeRendering>
    decreases reg.len(),
{
    if reg.len() == 0 {
        None
    } else if reg[0].rust_type@ == ty {
        Some(reg[0])
    } else {
        find_rendering(reg.drop_first(), ty)
    }
}

/// The rendering the registry gives `ty` (meaningful when it describes `ty`).
pub open spec fn rendering_for(types: TypeDeclarations, ty: BridgedType) -> TypeRendering {
    types.rendering(ty.rust_type@).unwrap()
}

/// The types in scope, with how each is rendered.
pub struct TypeDeclarations {
    pub renderings: Vec<TypeRendering>,
}

impl TypeDeclarations {
    pub open spec fn rendering(&self, ty: Seq<char>) -> Option<TypeRendering> {
        find_rendering(self.renderings@, ty)
    }

    pub open spec fn describes(&self, ty: BridgedType) -> bool {
        self.rendering(ty.rust_type@) is Some
    }

    /// The rendering of `ty`, the first entry with its spelling.
    pub fn rendering_of(&self, ty: &BridgedType) -> (r: Option<&TypeRendering>)
        ensures
            r matches Some(x) ==> self.rendering(ty.rust_type@) == Some(*x),
            r is None ==> self.rendering(ty.rust_type@) is None,
    {
        let mut i: usize = 0;
        assert(self.renderings@.skip(0) =~= self.renderings@);
        while i < self.renderings.len()
            invariant
                i <= self.renderings@.len(),
                self.rendering(ty.rust_type@) == find_rendering(
                    self.renderings@.skip(i as int),
                    ty.rust_type@,
                ),
            decreases self.renderings.len() - i,
        {
            proof {
                assert(self.renderings@.skip(i as int).drop_first() =~= self.renderings@.skip(
                    i + 1,
                ));
            }
            if str_eq(self.renderings[i].rust_type.as_str(), ty.rust_type.as_str()) {
                return Some(&self.renderings[i]);
            }
            i = i + 1;
        }
        None
    }
}

/// Whether `r` renders the primitive `rust` as `c` in C and `swift` in
/// Swift, passing values across unchanged.
pub open spec fn is_primitive_rendering(
    r: TypeRendering,
    rust: Seq<char>,
    c: Seq<char>,
    swift: Seq<char>,
) -> bool {
    &&& r.rust_type@ == rust
    &&& r.rust_type_path@ == rust
    &&& r.c_type@ == c
    &&& r.swift_rust_arg@ == swift
    &&& r.swift_swift_arg@ == swift
    &&& r.swift_rust_ret@ == swift
    &&& forall|e: Seq<char>, i: nat, p: Seq<char>| #[trigger] r.ffi_rust_type.spec_apply(e, i, p) == rust
    &&& forall|e: Seq<char>, i: nat, p: Seq<char>|
        {
            &&& #[trigger] r.swift_to_ffi_arg.spec_apply(e, i, p) == e
            &&& r.swift_to_ffi_ret.spec_apply(e, i, p) == e
            &&& r.ffi_to_swift_arg.spec_apply(e, i, p) == e
            &&& r.rust_to_ffi.spec_apply(e, i, p) == e
            &&& r.ffi_to_rust.spec_apply(e, i, p) == e
        }
    &&& !r.owned_string
    &&& !r.ref_string
}

impl TypeRendering {
    /// The rendering of a primitive passed by value.
    pub fn primitive(rust: &str, c: &str, swift: &str) -> (r: TypeRendering)
        ensures
            is_primitive_rendering(r, rust@, c@, swift@),
    {
        TypeRendering {
            rust_type: String::from_str(rust),
            rust_type_path: String::from_str(rust),
            c_type: String::from_str(c),
            swift_rust_arg: String::from_str(swift),
            swift_swift_arg: String::from_str(swift),
            swift_rust_ret: String::from_str(swift),
            ffi_rust_type: ExprTemplate::text(rust),
            swift_to_ffi_arg: ExprTemplate::identity(),
            swift_to_ffi_ret: ExprTemplate::identity(),
            ffi_to_swift_arg: ExprTemplate::identity(),
            rust_to_ffi: ExprTemplate::identity(),
            ffi_to_rust: ExprTemplate::identity(),
            owned_string: false,
            ref_string: false,
        }
    }
}

impl Default for TypeDeclarations {
    /// The built-in primitives: the fixed-width integers, `usize`/`isize`,
    /// `bool`, `f32`/`f64` and `()`, with their C and Swift spellings.
    fn default() -> (r: TypeDeclarations)
        ensures
            r.renderings@.len() == 14,
            is_primitive_rendering(r.renderings@[0], "u8"@, "uint8_t"@, "UInt8"@),
            is_primitive_rendering(r.renderings@[1], "i8"@, "int8_t"@, "Int8"@),
            is_primitive_rendering(r.renderings@[2], "u16"@, "uint16_t"@, "UInt16"@),
            is_primitive_rendering(r.renderings@[3], "i16"@, "int16_t"@, "Int16"@),
            is_primitive_rendering(r.renderings@[4], "u32"@, "uint32_t"@, "UInt32"@),
            is_primitive_rendering(r.renderings@[5], "i32"@, "int32_t"@, "Int32"@),
            is_primitive_rendering(r.renderings@[6], "u64"@, "uint64_t"@, "UInt64"@),
            is_primitive_rendering(r.renderings@[7], "i64"@, "int64_t"@, "Int64"@),
            is_primitive_rendering(r.renderings@[8], "usize"@, "uintptr_t"@, "UInt"@),
            is_primitive_rendering(r.renderings@[9], "isize"@, "intptr_t"@, "Int"@),
            is_primitive_rendering(r.renderings@[10], "bool"@, "bool"@, "Bool"@),
            is_primitive_rendering(r.renderings@[11], "f32"@, "float"@, "Float"@),
            is_primitive_rendering(r.renderings@[12], "f64"@, "double"@, "Double"@),
            is_primitive_rendering(r.renderings@[13], "()"@, "void"@, "()"@),
    {
        let mut v = Vec::new();
        v.push(TypeRendering::primitive("u8", "uint8_t", "UInt8"));
        v.push(TypeRendering::primitive("i8", "int8_t", "Int8"));
        v.push(TypeRendering::primitive("u16", "uint16_t", "UInt16"));
        v.push(TypeRendering::primitive("i16", "int16_t", "Int16"));
        v.push(TypeRendering::primitive("u32", "uint32_t", "UInt32"));
        v.push(TypeRendering::primitive("i32", "int32_t", "Int32"));
        v.push(TypeRendering::primitive("u64", "uint64_t", "UInt64"));
        v.push(TypeRendering::primitive("i64", "int64_t", "Int64"));
        v.push(TypeRendering::primitive("usize", "uintptr_t", "UInt"));
        v.push(TypeRendering::primitive("isize", "intptr_t", "Int"));
        v.push(TypeRendering::primitive("bool", "bool", "Bool"));
        v.push(TypeRendering::primitive("f32", "float", "Float"));
        v.push(TypeRendering::primitive("f64", "double", "Double"));
        v.push(TypeRendering::primitive("()", "void", "()"));
        TypeDeclarations { renderings: v }
    }
}

} // verus!
