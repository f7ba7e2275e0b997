//! Swift spellings of types in Swift-style `func` declarations, rewritten to
//! the Rust spellings swift-bridge understands (`UInt8` to `u8`,
//! `Optional<T>` to `Option<T>`, `UnsafePointer<T>` to `*const T`, ...).
use vstd::prelude::*;
use crate::tokens::{
    copy_range, extend_copy, lemma_toks_v, lemma_toks_v_subrange, push_tok, tok_v, toks_v,
    Delimiter, Tok, TokV,
};
use crate::text::{push_str, str_eq};
use crate::rust_syntax::{parse_ident, spec_parse_ident};

verus! {

/// Why a Swift-style declaration could not be normalized.
pub enum SwiftSyntaxError {
    /// The tokens do not form a Swift function declaration.
    Syntax,
    /// `async` is written both before and after the parameters.
    AsyncTwice,
    /// `UnsafePointer`/`UnsafeMutablePointer` (the name as written) without
    /// exactly one generic argument.
    PointerArity(String),
    /// `UnsafePointer`/`UnsafeMutablePointer` (the name as written) whose
    /// argument is not a type.
    PointerArgument(String),
    /// A `rust_name` that is not a Rust identifier.
    InvalidRustName,
    /// `static_func!` without a single `type` in the block, nor `associated_to`.
    StaticFuncWithoutType,
    /// A `#[swift_bridge(..)]` attribute whose arguments are malformed.
    AttributeArgs,
    /// Two declarations generate this Rust function name.
    DuplicateRustName(String),
    /// A raw identifier (`r#..`) where a new identifier is built from it:
    /// the function name or a parameter name that is turned into snake case.
    RawIdentifier,
}

/// The value of a `SwiftSyntaxError`.
pub enum SwiftSyntaxErrorV {
    Syntax,
    AsyncTwice,
    PointerArity(Seq<char>),
    PointerArgument(Seq<char>),
    InvalidRustName,
    StaticFuncWithoutType,
    AttributeArgs,
    DuplicateRustName(Seq<char>),
    RawIdentifier,
}

pub open spec fn err_v(e: SwiftSyntaxError) -> SwiftSyntaxErrorV {
    match e {
        SwiftSyntaxError::Syntax => SwiftSyntaxErrorV::Syntax,
        SwiftSyntaxError::AsyncTwice => SwiftSyntaxErrorV::AsyncTwice,
        SwiftSyntaxError::PointerArity(n) => SwiftSyntaxErrorV::PointerArity(n@),
        SwiftSyntaxError::PointerArgument(n) => SwiftSyntaxErrorV::PointerArgument(n@),
        SwiftSyntaxError::InvalidRustName => SwiftSyntaxErrorV::InvalidRustName,
        SwiftSyntaxError::StaticFuncWithoutType => SwiftSyntaxErrorV::StaticFuncWithoutType,
        SwiftSyntaxError::AttributeArgs => SwiftSyntaxErrorV::AttributeArgs,
        SwiftSyntaxError::DuplicateRustName(s) => SwiftSyntaxErrorV::DuplicateRustName(s@),
        SwiftSyntaxError::RawIdentifier => SwiftSyntaxErrorV::RawIdentifier,
    }
}

/// The message reported for an error.
pub open spec fn error_message(e: SwiftSyntaxErrorV) -> Seq<char> {
    match e {
        SwiftSyntaxErrorV::Syntax => "expected a Swift function declaration"@,
        SwiftSyntaxErrorV::AsyncTwice => "`async` may only appear once in a Swift function declaration"@,
        SwiftSyntaxErrorV::PointerArity(n) => "`"@ + n + "` must have exactly one generic type argument"@,
        SwiftSyntaxErrorV::PointerArgument(n) => "`"@ + n + "` must have a type argument"@,
        SwiftSyntaxErrorV::InvalidRustName => "`rust_name` must be a valid Rust identifier"@,
        SwiftSyntaxErrorV::StaticFuncWithoutType => "`static_func!` requires exactly one `type` declaration in the extern \"Swift\" block, or an explicit `#[swift_bridge(associated_to = Type)]` attribute"@,
        SwiftSyntaxErrorV::AttributeArgs => "malformed `#[swift_bridge(..)]` attribute arguments"@,
        SwiftSyntaxErrorV::DuplicateRustName(n) => "multiple Swift `func` or `static_func` declarations generate the Rust function name `"@
            + n + "`; add `#[swift_bridge(rust_name = \"...\")]` to one of them"@,
        SwiftSyntaxErrorV::RawIdentifier => "a raw identifier cannot be turned into a Rust function or parameter name"@,
    }
}

/// The second diagnostic reported with an error, if it has one: a repeated
/// Rust name is also reported at the declaration that generated it first.
pub open spec fn error_note(e: SwiftSyntaxErrorV) -> Option<Seq<char>> {
    match e {
        SwiftSyntaxErrorV::DuplicateRustName(_) => Some(
            "previous Swift `func` declaration generated this Rust function name"@,
        ),
        _ => None,
    }
}

impl SwiftSyntaxError {
    /// The second diagnostic of the error (see `error_note`).
    pub fn note(&self) -> (r: Option<String>)
        ensures
            r matches Some(n) ==> error_note(err_v(*self)) == Some(n@),
            r is None ==> error_note(err_v(*self)) is None,
    {
        match self {
            SwiftSyntaxError::DuplicateRustName(_) => Some(
                String::from_str("previous Swift `func` declaration generated this Rust function name"),
            ),
            _ => None,
        }
    }

    /// The message of the error (see `error_message`).
    pub fn message(&self) -> (r: String)
        ensures
            r@ == error_message(err_v(*self)),
    {
        match self {
            SwiftSyntaxError::Syntax => String::from_str("expected a Swift function declaration"),
            SwiftSyntaxError::AsyncTwice => String::from_str(
                "`async` may only appear once in a Swift function declaration",
            ),
            SwiftSyntaxError::PointerArity(n) => {
                let mut m = String::from_str("`");
                push_str(&mut m, n.as_str());
                push_str(&mut m, "` must have exactly one generic type argument");
                m
            },
            SwiftSyntaxError::PointerArgument(n) => {
                let mut m = String::from_str("`");
                push_str(&mut m, n.as_str());
                push_str(&mut m, "` must have a type argument");
                m
            },
            SwiftSyntaxError::InvalidRustName => String::from_str(
                "`rust_name` must be a valid Rust identifier",
            ),
            SwiftSyntaxError::StaticFuncWithoutType => String::from_str(
                "`static_func!` requires exactly one `type` declaration in the extern \"Swift\" block, or an explicit `#[swift_bridge(associated_to = Type)]` attribute",
            ),
            SwiftSyntaxError::AttributeArgs => String::from_str(
                "malformed `#[swift_bridge(..)]` attribute arguments",
            ),
            SwiftSyntaxError::DuplicateRustName(n) => {
                let mut m = String::from_str(
                    "multiple Swift `func` or `static_func` declarations generate the Rust function name `",
                );
                push_str(&mut m, n.as_str());
                push_str(&mut m, "`; add `#[swift_bridge(rust_name = \"...\")]` to one of them");
                m
            },
            SwiftSyntaxError::RawIdentifier => String::from_str(
                "a raw identifier cannot be turned into a Rust function or parameter name",
            ),
        }
    }
}

/// The identifier text of `t` (empty for any other token).
fn written_name(t: &Tok) -> (r: String)
    ensures
        tok_v(*t) is Ident ==> r@ == tok_v(*t)->Ident_0,
{
    match t {
        Tok::Ident(x) => x.clone(),
        _ => String::from_str(""),
    }
}

pub open spec fn res_v(r: Result<Vec<Tok>, SwiftSyntaxError>) -> Result<Seq<TokV>, SwiftSyntaxErrorV> {
    match r {
        Ok(v) => Ok(toks_v(v@)),
        Err(e) => Err(err_v(e)),
    }
}

pub open spec fn is_ident(t: TokV, s: Seq<char>) -> bool {
    t matches TokV::Ident(x) && x == s
}

pub open spec fn is_punct(t: TokV, c: char) -> bool {
    t matches TokV::Punct(ch, _) && ch == c
}

pub open spec fn ident_at(t: Seq<TokV>, i: int, s: Seq<char>) -> bool {
    0 <= i < t.len() && is_ident(t[i], s)
}

pub open spec fn punct_at(t: Seq<TokV>, i: int, c: char) -> bool {
    0 <= i < t.len() && is_punct(t[i], c)
}

pub open spec fn ident(s: Seq<char>) -> TokV {
    TokV::Ident(s)
}

pub open spec fn punct(c: char) -> TokV {
    TokV::Punct(c, false)
}

/// `::` at `i`: a joined `:` followed by a `:`.
pub open spec fn colon2_at(t: Seq<TokV>, i: int) -> bool {
    0 <= i && i + 1 < t.len() && t[i] == TokV::Punct(':', true) && is_punct(t[i + 1], ':')
}

/// `->` at `i`: a joined `-` followed by a `>`.
pub open spec fn arrow_at(t: Seq<TokV>, i: int) -> bool {
    0 <= i && i + 1 < t.len() && t[i] == TokV::Punct('-', true) && is_punct(t[i + 1], '>')
}

/// An identifier that can be a segment of a module path.
pub open spec fn path_ident(n: Seq<char>) -> bool {
    spec_parse_ident(n) is Some || n == "super"@ || n == "self"@ || n == "Self"@ || n == "crate"@
}

pub open spec fn path_ident_at(t: Seq<TokV>, j: int) -> bool {
    0 <= j < t.len() && t[j] is Ident && path_ident(t[j]->Ident_0)
}

pub fn colon2_exec(t: &Vec<Tok>, i: usize) -> (r: bool)
    ensures
        r == colon2_at(toks_v(t@), i as int),
{
    proof {
        lemma_toks_v(t@);
    }
    if i < t.len() && i + 1 < t.len() {
        let first = match &t[i] {
            Tok::Punct(c, j) => *c == ':' && *j,
            _ => false,
        };
        first && tok_is_punct(&t[i + 1], ':')
    } else {
        false
    }
}

pub fn arrow_exec(t: &Vec<Tok>, i: usize) -> (r: bool)
    ensures
        r == arrow_at(toks_v(t@), i as int),
{
    proof {
        lemma_toks_v(t@);
    }
    if i < t.len() && i + 1 < t.len() {
        let first = match &t[i] {
            Tok::Punct(c, j) => *c == '-' && *j,
            _ => false,
        };
        first && tok_is_punct(&t[i + 1], '>')
    } else {
        false
    }
}

pub fn path_ident_exec(t: &Vec<Tok>, j: usize) -> (r: bool)
    ensures
        r == path_ident_at(toks_v(t@), j as int),
{
    proof {
        lemma_toks_v(t@);
    }
    if j < t.len() {
        match &t[j] {
            Tok::Ident(n) => {
                let s = n.as_str();
                let parsed = parse_ident(s);
                parsed.is_some() || str_eq(s, "super") || str_eq(s, "self") || str_eq(s, "Self")
                    || str_eq(s, "crate")
            },
            _ => false,
        }
    } else {
        false
    }
}

/// How the token at `k` changes the nesting of `<..>`: `<` opens, `>` closes
/// unless it ends `->`.
pub open spec fn angle_delta(t: Seq<TokV>, k: int) -> int {
    if is_punct(t[k], '<') {
        1
    } else if is_punct(t[k], '>') && !(k > 0 && t[k - 1] == TokV::Punct('-', true)) {
        -1
    } else {
        0
    }
}

/// The `<..>` nesting depth before index `n`.
pub open spec fn depth(t: Seq<TokV>, n: int) -> int
    decreases n,
{
    if n <= 0 {
        0
    } else {
        depth(t, n - 1) + angle_delta(t, n - 1)
    }
}

/// The first index in `[i, end)` holding a `sep` at nesting depth `d`, or `end`.
pub open spec fn next_sep(t: Seq<TokV>, sep: char, d: int, i: int, end: int) -> int
    decreases end - i,
{
    if i >= end {
        end
    } else if is_punct(t[i], sep) && depth(t, i) == d {
        i
    } else {
        next_sep(t, sep, d, i + 1, end)
    }
}

/// The index of the `>` closing the `<` at `j`, or `t.len()`.
pub open spec fn angle_close_from(t: Seq<TokV>, base: int, k: int) -> int
    decreases t.len() - k,
{
    if k >= t.len() {
        t.len() as int
    } else if depth(t, k + 1) == base {
        k
    } else {
        angle_close_from(t, base, k + 1)
    }
}

pub open spec fn angle_close(t: Seq<TokV>, j: int) -> int {
    angle_close_from(t, depth(t, j), j + 1)
}

/// The Rust tokens of the Swift built-in type named `n`, if it is one.
pub open spec fn builtin_type(n: Seq<char>) -> Option<Seq<TokV>> {
    if n == "UInt8"@ {
        Some(seq![ident("u8"@)])
    } else if n == "Int8"@ {
        Some(seq![ident("i8"@)])
    } else if n == "UInt16"@ {
        Some(seq![ident("u16"@)])
    } else if n == "Int16"@ {
        Some(seq![ident("i16"@)])
    } else if n == "UInt32"@ {
        Some(seq![ident("u32"@)])
    } else if n == "Int32"@ {
        Some(seq![ident("i32"@)])
    } else if n == "UInt64"@ {
        Some(seq![ident("u64"@)])
    } else if n == "Int64"@ {
        Some(seq![ident("i64"@)])
    } else if n == "UInt"@ {
        Some(seq![ident("usize"@)])
    } else if n == "Int"@ {
        Some(seq![ident("isize"@)])
    } else if n == "Float"@ {
        Some(seq![ident("f32"@)])
    } else if n == "Double"@ {
        Some(seq![ident("f64"@)])
    } else if n == "Bool"@ {
        Some(seq![ident("bool"@)])
    } else if n == "Void"@ {
        Some(seq![TokV::Group(Delimiter::Parenthesis, Seq::empty())])
    } else if n == "RustString"@ {
        Some(seq![ident("String"@)])
    } else if n == "RustStringRef"@ {
        Some(seq![punct('&'), ident("String"@)])
    } else if n == "RustStringRefMut"@ {
        Some(seq![punct('&'), ident("mut"@), ident("String"@)])
    } else if n == "RustStr"@ {
        Some(seq![punct('&'), ident("str"@)])
    } else if n == "UnsafeRawPointer"@ {
        Some(seq![punct('*'), ident("const"@)] + c_void_path())
    } else if n == "UnsafeMutableRawPointer"@ {
        Some(seq![punct('*'), ident("mut"@)] + c_void_path())
    } else {
        None
    }
}

/// `std::ffi::c_void`.
pub open spec fn c_void_path() -> Seq<TokV> {
    seq![
        ident("std"@),
        TokV::Punct(':', true),
        punct(':'),
        ident("ffi"@),
        TokV::Punct(':', true),
        punct(':'),
        ident("c_void"@),
    ]
}

/// The Rust generic type that a Swift generic type named `n` becomes.
pub open spec fn generic_type(n: Seq<char>) -> Option<Seq<char>> {
    if n == "Optional"@ {
        Some("Option"@)
    } else if n == "RustVec"@ {
        Some("Vec"@)
    } else if n == "RustResult"@ {
        Some("Result"@)
    } else {
        None
    }
}

/// `Some(true)` for `UnsafePointer`, `Some(false)` for `UnsafeMutablePointer`.
pub open spec fn pointer_type(n: Seq<char>) -> Option<bool> {
    if n == "UnsafePointer"@ {
        Some(true)
    } else if n == "UnsafeMutablePointer"@ {
        Some(false)
    } else {
        None
    }
}

/// Whether the generic argument `t[i..e]` is a type (not a lifetime, an
/// associated type binding or constraint, or a const).
pub open spec fn is_type_arg(t: Seq<TokV>, i: int, e: int) -> bool {
    &&& i < e
    &&& !(t[i] is Punct && is_punct(t[i], '\''))
    &&& !(t[i] is Ident && i + 1 < e && is_punct(t[i + 1], '='))
    &&& !(t[i] is Ident && i + 1 < e && is_punct(t[i + 1], ':') && !colon2_at(t, i + 1))
    &&& !(t[i] is Literal)
    &&& !(t[i] matches TokV::Group(Delimiter::Brace, _))
    &&& !is_punct(t[i], '-')
}

/// The number of generic arguments in `t[i..end)` at nesting depth `d`
/// (a trailing comma adds none).
pub open spec fn arg_count(t: Seq<TokV>, d: int, i: int, end: int) -> nat
    decreases end - i,
{
    if i >= end {
        0
    } else {
        let e = next_sep(t, ',', d, i, end);
        proof {
            lemma_next_sep(t, ',', d, i, end);
        }
        if e >= end {
            1
        } else {
            1 + arg_count(t, d, e + 1, end)
        }
    }
}

pub proof fn lemma_next_sep(t: Seq<TokV>, sep: char, d: int, i: int, end: int)
    requires
        i <= end,
    ensures
        i <= next_sep(t, sep, d, i, end) <= end,
    decreases end - i,
{
    if i < end && !(is_punct(t[i], sep) && depth(t, i) == d) {
        lemma_next_sep(t, sep, d, i + 1, end);
    }
}

pub proof fn lemma_angle_close(t: Seq<TokV>, base: int, k: int)
    requires
        0 <= k <= t.len(),
    ensures
        k <= angle_close_from(t, base, k) <= t.len(),
    decreases t.len() - k,
{
    if k < t.len() && depth(t, k + 1) != base {
        lemma_angle_close(t, base, k + 1);
    }
}

/// Where the `<` of the generic arguments of a path's first segment is:
/// `Name<..>` (1) or `Name::<..>` (3); 0 when there is none.
pub open spec fn angle_start(t: Seq<TokV>) -> int {
    if punct_at(t, 1, '<') {
        1
    } else if colon2_at(t, 1) && punct_at(t, 3, '<') {
        3
    } else {
        0
    }
}

/// `t` is one path segment `Name<..>` or `Name::<..>` whose name is one of
/// the Swift generic types that become Rust types or raw pointers.
pub open spec fn mapped_generic(t: Seq<TokV>) -> bool {
    &&& t.len() > 0
    &&& t[0] is Ident
    &&& angle_start(t) > 0
    &&& angle_close(t, angle_start(t)) == t.len() - 1
    &&& (generic_type(t[0]->Ident_0) is Some || pointer_type(t[0]->Ident_0) is Some)
}

/// The end of the path segment at `i`: its identifier and its arguments
/// (`<..>`, `::<..>`, or `(..)` with a `-> Type` that runs to the end).
pub open spec fn seg_end(t: Seq<TokV>, i: int) -> int {
    let j = i + 1;
    if punct_at(t, j, '<') {
        angle_close(t, j) + 1
    } else if colon2_at(t, j) && punct_at(t, j + 2, '<') {
        angle_close(t, j + 2) + 1
    } else if j < t.len() && t[j] is Group && t[j]->Group_0 == Delimiter::Parenthesis {
        if arrow_at(t, j + 1) {
            t.len() as int
        } else {
            j + 1
        }
    } else {
        j
    }
}

pub proof fn lemma_seg_end(t: Seq<TokV>, i: int)
    requires
        0 <= i < t.len(),
    ensures
        i < seg_end(t, i) <= t.len() + 1,
{
    let j = i + 1;
    if punct_at(t, j, '<') {
        lemma_angle_close(t, depth(t, j), j + 1);
    } else if colon2_at(t, j) && punct_at(t, j + 2, '<') {
        lemma_angle_close(t, depth(t, j + 2), j + 3);
    }
}

/// `t[i..]` is path segments separated by `::`.
pub open spec fn path_from(t: Seq<TokV>, i: int) -> bool
    decreases t.len() - i,
{
    if path_ident_at(t, i) {
        let e = seg_end(t, i);
        proof {
            lemma_seg_end(t, i);
        }
        e == t.len() || (colon2_at(t, e) && path_from(t, e + 2))
    } else {
        false
    }
}

/// Where the segments of a path start: after a leading `::`.
pub open spec fn path_start(t: Seq<TokV>) -> int {
    if colon2_at(t, 0) {
        2
    } else {
        0
    }
}

/// The path segments `t[i..]` with the types in their arguments normalized.
pub open spec fn norm_path(t: Seq<TokV>, i: int) -> Result<Seq<TokV>, SwiftSyntaxErrorV>
    decreases t, 0int, t.len() - i + 1,
{
    if !(0 <= i < t.len()) {
        Ok(Seq::empty())
    } else {
        let e = seg_end(t, i);
        proof {
            lemma_seg_end(t, i);
        }
        match norm_seg(t, i) {
            Err(x) => Err(x),
            Ok(s) => if e + 2 > t.len() {
                Ok(s)
            } else {
                match norm_path(t, e + 2) {
                    Ok(r) => Ok(s + t.subrange(e, e + 2) + r),
                    Err(x) => Err(x),
                }
            },
        }
    }
}

/// The path segment at `i` with the types in its arguments normalized:
/// `Name<..>`, `Name::<..>`, or `Name(..) -> Type`.
pub open spec fn norm_seg(t: Seq<TokV>, i: int) -> Result<Seq<TokV>, SwiftSyntaxErrorV>
    decreases t, 0int, t.len() - i,
{
    let j = i + 1;
    if !(0 <= i < t.len()) {
        Ok(Seq::empty())
    } else if punct_at(t, j, '<') {
        let c = angle_close(t, j);
        proof {
            lemma_angle_close(t, depth(t, j), j + 1);
        }
        match norm_args(t, j + 1, c) {
            Ok(a) => Ok(seq![t[i], punct('<')] + a + seq![punct('>')]),
            Err(x) => Err(x),
        }
    } else if colon2_at(t, j) && punct_at(t, j + 2, '<') {
        let c = angle_close(t, j + 2);
        proof {
            lemma_angle_close(t, depth(t, j + 2), j + 3);
        }
        match norm_args(t, j + 3, c) {
            Ok(a) => Ok(seq![t[i], t[j], t[j + 1], punct('<')] + a + seq![punct('>')]),
            Err(x) => Err(x),
        }
    } else if j < t.len() && t[j] is Group && t[j]->Group_0 == Delimiter::Parenthesis {
        match norm_elems(t[j]->Group_1, 0) {
            Err(x) => Err(x),
            Ok(ins) => if arrow_at(t, j + 1) {
                match norm_type(t.subrange(j + 3, t.len() as int)) {
                    Ok(o) => Ok(
                        seq![t[i], TokV::Group(Delimiter::Parenthesis, ins), t[j + 1], t[j + 2]] + o,
                    ),
                    Err(x) => Err(x),
                }
            } else {
                Ok(seq![t[i], TokV::Group(Delimiter::Parenthesis, ins)])
            },
        }
    } else {
        Ok(seq![t[i]])
    }
}

/// The index of the `as` of a qualified path `<T as Trait>`: the first `as`
/// in `[i, end)` directly inside the first `<`, or `end`.
pub open spec fn qself_as(t: Seq<TokV>, i: int, end: int) -> int
    decreases end - i,
{
    if i >= end {
        end
    } else if is_ident(t[i], "as"@) && depth(t, i) == 1 {
        i
    } else {
        qself_as(t, i + 1, end)
    }
}

pub proof fn lemma_qself_as(t: Seq<TokV>, i: int, end: int)
    requires
        i <= end,
    ensures
        i <= qself_as(t, i, end) <= end,
    decreases end - i,
{
    if i < end {
        lemma_qself_as(t, i + 1, end);
    }
}

/// `<T>::Path` or `<T as Trait>::Path`: a qualified path. The self type `T`
/// is kept as written; the types in the arguments of `Trait` and of the path
/// after `>::` are normalized.
pub open spec fn qself_path(t: Seq<TokV>) -> bool {
    &&& punct_at(t, 0, '<')
    &&& colon2_at(t, angle_close(t, 0) + 1)
    &&& path_from(t, angle_close(t, 0) + 3)
}

/// The normalization of the type `t`. Recursion goes to strict sub-ranges of
/// `t` and into the content of its groups.
pub open spec fn norm_type(t: Seq<TokV>) -> Result<Seq<TokV>, SwiftSyntaxErrorV>
    decreases t, 1int, 0int,
{
    if t.len() == 0 {
        Ok(t)
    } else if t.len() == 1 && t[0] is Ident && builtin_type(t[0]->Ident_0) is Some {
        Ok(builtin_type(t[0]->Ident_0).unwrap())
    } else if mapped_generic(t) {
        let n = t[0]->Ident_0;
        let ab = angle_start(t);
        let end = t.len() - 1;
        if generic_type(n) is Some {
            match norm_args(t, ab + 1, end) {
                Ok(a) => Ok(
                    seq![ident(generic_type(n).unwrap())] + t.subrange(1, ab) + seq![punct('<')] + a
                        + seq![punct('>')],
                ),
                Err(e) => Err(e),
            }
        } else {
            let e = next_sep(t, ',', 1, ab + 1, end);
            if arg_count(t, 1, ab + 1, end) != 1 {
                Err(SwiftSyntaxErrorV::PointerArity(n))
            } else if !is_type_arg(t, ab + 1, e) {
                Err(SwiftSyntaxErrorV::PointerArgument(n))
            } else {
                proof {
                    lemma_next_sep(t, ',', 1, ab + 1, end);
                }
                match norm_type(t.subrange(ab + 1, e)) {
                    Ok(inner) => Ok(
                        seq![
                            punct('*'),
                            ident(
                                if pointer_type(n).unwrap() {
                                    "const"@
                                } else {
                                    "mut"@
                                },
                            ),
                        ] + inner,
                    ),
                    Err(err) => Err(err),
                }
            }
        }
    } else if path_from(t, path_start(t)) {
        match norm_path(t, path_start(t)) {
            Ok(p) => Ok(t.subrange(0, path_start(t)) + p),
            Err(e) => Err(e),
        }
    } else if qself_path(t) {
        let c = angle_close(t, 0);
        proof {
            lemma_angle_close(t, depth(t, 0), 1);
            lemma_qself_as(t, 1, c);
        }
        let k = qself_as(t, 1, c);
        if k < c && path_from(t.subrange(k + 1, c), path_start(t.subrange(k + 1, c))) {
            let tr = t.subrange(k + 1, c);
            proof {
                assert(decreases_to!(t => tr));
            }
            match norm_path(tr, path_start(tr)) {
                Err(e) => Err(e),
                Ok(q) => match norm_path(t, c + 3) {
                    Ok(p) => Ok(
                        t.subrange(0, k + 1) + tr.subrange(0, path_start(tr)) + q + t.subrange(
                            c,
                            c + 3,
                        ) + p,
                    ),
                    Err(e) => Err(e),
                },
            }
        } else {
            match norm_path(t, c + 3) {
                Ok(p) => Ok(t.subrange(0, c + 3) + p),
                Err(e) => Err(e),
            }
        }
    } else if t.len() == 1 && t[0] is Group && t[0]->Group_0 == Delimiter::Parenthesis {
        match norm_elems(t[0]->Group_1, 0) {
            Ok(a) => Ok(seq![TokV::Group(Delimiter::Parenthesis, a)]),
            Err(e) => Err(e),
        }
    } else if t.len() == 1 && t[0] is Group && t[0]->Group_0 == Delimiter::Invisible {
        match norm_type(t[0]->Group_1) {
            Ok(a) => Ok(seq![TokV::Group(Delimiter::Invisible, a)]),
            Err(e) => Err(e),
        }
    } else if is_punct(t[0], '&') {
        let i = ref_prefix_len(t);
        match norm_type(t.subrange(i, t.len() as int)) {
            Ok(a) => Ok(t.subrange(0, i) + a),
            Err(e) => Err(e),
        }
    } else if is_punct(t[0], '*') && (ident_at(t, 1, "const"@) || ident_at(t, 1, "mut"@)) {
        match norm_type(t.subrange(2, t.len() as int)) {
            Ok(a) => Ok(t.subrange(0, 2) + a),
            Err(e) => Err(e),
        }
    } else {
        Ok(t)
    }
}

/// The length of `&`, an optional lifetime and an optional `mut`.
pub open spec fn ref_prefix_len(t: Seq<TokV>) -> int {
    let i: int = if punct_at(t, 1, '\'') && 2 < t.len() && t[2] is Ident {
        3
    } else {
        1
    };
    if ident_at(t, i, "mut"@) {
        i + 1
    } else {
        i
    }
}

/// The normalized generic arguments `t[i..end)`, which sit at depth 1 in
/// `t`, re-joined with commas.
pub open spec fn norm_args(t: Seq<TokV>, i: int, end: int) -> Result<Seq<TokV>, SwiftSyntaxErrorV>
    decreases t, 0int, end - i + 1,
{
    if i < 0 || i > end || end > t.len() || i == 0 && end == t.len() {
        Ok(Seq::empty())
    } else {
        let e = next_sep(t, ',', 1, i, end);
        proof {
            lemma_next_sep(t, ',', 1, i, end);
        }
        let piece = norm_generic_arg(t, i, e);
        if e >= end {
            piece
        } else {
            match (piece, norm_args(t, e + 1, end)) {
                (Ok(p), Ok(r)) => Ok(p + seq![punct(',')] + r),
                (Err(x), _) => Err(x),
                (_, Err(x)) => Err(x),
            }
        }
    }
}

/// One normalized generic argument `t[i..e)`: types and the types of
/// bindings are normalized, everything else is kept.
pub open spec fn norm_generic_arg(t: Seq<TokV>, i: int, e: int) -> Result<
    Seq<TokV>,
    SwiftSyntaxErrorV,
>
    decreases t, 0int, 0int,
{
    if !(0 <= i <= e <= t.len()) || i == 0 && e == t.len() || i == e {
        Ok(t.subrange(i, e))
    } else if t[i] is Ident && i + 1 < e && is_punct(t[i + 1], '=') {
        match norm_type(t.subrange(i + 2, e)) {
            Ok(a) => Ok(t.subrange(i, i + 2) + a),
            Err(x) => Err(x),
        }
    } else if is_type_arg(t, i, e) {
        norm_type(t.subrange(i, e))
    } else {
        Ok(t.subrange(i, e))
    }
}

/// The normalized comma-separated types `g[i..]` of a tuple or parenthesized
/// type, re-joined with commas (empty pieces are kept).
pub open spec fn norm_elems(g: Seq<TokV>, i: int) -> Result<Seq<TokV>, SwiftSyntaxErrorV>
    decreases g, 2int, g.len() - i + 1,
{
    if i < 0 || i > g.len() {
        Ok(Seq::empty())
    } else {
        let e = next_sep(g, ',', 0, i, g.len() as int);
        proof {
            lemma_next_sep(g, ',', 0, i, g.len() as int);
            if i == 0 && e == g.len() {
                assert(g.subrange(i, e) =~= g);
            }
        }
        let piece = norm_type(g.subrange(i, e));
        if e >= g.len() {
            piece
        } else {
            match (piece, norm_elems(g, e + 1)) {
                (Ok(p), Ok(r)) => Ok(p + seq![punct(',')] + r),
                (Err(x), _) => Err(x),
                (_, Err(x)) => Err(x),
            }
        }
    }
}

pub proof fn lemma_depth_bound(t: Seq<TokV>, n: int)
    requires
        0 <= n <= t.len(),
    ensures
        -n <= depth(t, n) <= n,
    decreases n,
{
    if n > 0 {
        lemma_depth_bound(t, n - 1);
    }
}

/// Whether `t` is the identifier `s`.
pub fn tok_is_ident(t: &Tok, s: &str) -> (r: bool)
    ensures
        r == is_ident(tok_v(*t), s@),
{
    match t {
        Tok::Ident(x) => str_eq(x.as_str(), s),
        _ => false,
    }
}

/// Whether `t` is the punctuation character `c`.
pub fn tok_is_punct(t: &Tok, c: char) -> (r: bool)
    ensures
        r == is_punct(tok_v(*t), c),
{
    match t {
        Tok::Punct(x, _) => *x == c,
        _ => false,
    }
}

pub fn new_ident(s: &str) -> (r: Tok)
    ensures
        tok_v(r) == ident(s@),
{
    Tok::Ident(String::from_str(s))
}

pub fn new_punct(c: char) -> (r: Tok)
    ensures
        tok_v(r) == punct(c),
{
    Tok::Punct(c, false)
}

fn angle_delta_exec(t: &Vec<Tok>, k: usize) -> (r: i128)
    requires
        k < t@.len(),
    ensures
        r == angle_delta(toks_v(t@), k as int),
{
    proof {
        lemma_toks_v(t@);
    }
    if tok_is_punct(&t[k], '<') {
        1
    } else if tok_is_punct(&t[k], '>') {
        let after_dash = k > 0 && match &t[k - 1] {
            Tok::Punct(c, j) => *c == '-' && *j,
            _ => false,
        };
        if after_dash {
            0
        } else {
            -1
        }
    } else {
        0
    }
}

/// The nesting depth before index `n`.
fn depth_exec(t: &Vec<Tok>, n: usize) -> (r: i128)
    requires
        n <= t@.len(),
    ensures
        r == depth(toks_v(t@), n as int),
{
    let mut d: i128 = 0;
    let mut k: usize = 0;
    while k < n
        invariant
            k <= n <= t@.len(),
            d == depth(toks_v(t@), k as int),
        decreases n - k,
    {
        proof {
            lemma_toks_v(t@);
            lemma_depth_bound(toks_v(t@), k as int);
        }
        d = d + angle_delta_exec(t, k);
        k = k + 1;
    }
    d
}

/// The first index in `[i, end)` holding `sep` at depth `d`, or `end`.
pub fn next_sep_exec(t: &Vec<Tok>, sep: char, d: i128, i: usize, end: usize) -> (r: usize)
    requires
        i <= end <= t@.len(),
    ensures
        r == next_sep(toks_v(t@), sep, d as int, i as int, end as int),
        i <= r <= end,
{
    proof {
        lemma_toks_v(t@);
        lemma_next_sep(toks_v(t@), sep, d as int, i as int, end as int);
    }
    let mut k = i;
    let mut cur = depth_exec(t, i);
    while k < end
        invariant
            i <= k <= end <= t@.len(),
            toks_v(t@).len() == t@.len(),
            forall|x: int| 0 <= x < t@.len() ==> #[trigger] toks_v(t@)[x] == tok_v(t@[x]),
            cur == depth(toks_v(t@), k as int),
            next_sep(toks_v(t@), sep, d as int, i as int, end as int) == next_sep(
                toks_v(t@),
                sep,
                d as int,
                k as int,
                end as int,
            ),
        decreases end - k,
    {
        if tok_is_punct(&t[k], sep) && cur == d {
            return k;
        }
        proof {
            lemma_depth_bound(toks_v(t@), k as int);
        }
        cur = cur + angle_delta_exec(t, k);
        k = k + 1;
    }
    end
}

/// The index of the `>` closing the `<` at `j`, or the length.
/// The first `as` in `[i, end)` at depth one, or `end`.
fn qself_as_exec(t: &Vec<Tok>, i: usize, end: usize) -> (r: usize)
    requires
        i <= end <= t@.len(),
    ensures
        r == qself_as(toks_v(t@), i as int, end as int),
        i <= r <= end,
{
    proof {
        lemma_toks_v(t@);
        lemma_qself_as(toks_v(t@), i as int, end as int);
    }
    let mut k = i;
    let mut cur = depth_exec(t, i);
    while k < end
        invariant
            i <= k <= end <= t@.len(),
            toks_v(t@).len() == t@.len(),
            forall|x: int| 0 <= x < t@.len() ==> #[trigger] toks_v(t@)[x] == tok_v(t@[x]),
            cur == depth(toks_v(t@), k as int),
            qself_as(toks_v(t@), i as int, end as int) == qself_as(
                toks_v(t@),
                k as int,
                end as int,
            ),
        decreases end - k,
    {
        if tok_is_ident(&t[k], "as") && cur == 1 {
            return k;
        }
        proof {
            lemma_depth_bound(toks_v(t@), k as int);
        }
        cur = cur + angle_delta_exec(t, k);
        k = k + 1;
    }
    k
}

fn angle_close_exec(t: &Vec<Tok>, j: usize) -> (r: usize)
    requires
        j < t.len(),
    ensures
        r == angle_close(toks_v(t@), j as int),
{
    proof {
        lemma_toks_v(t@);
    }
    let base = depth_exec(t, j);
    let mut k = j + 1;
    let mut cur = depth_exec(t, k);
    while k < t.len()
        invariant
            j < k <= t@.len(),
            toks_v(t@).len() == t@.len(),
            forall|x: int| 0 <= x < t@.len() ==> #[trigger] toks_v(t@)[x] == tok_v(t@[x]),
            base == depth(toks_v(t@), j as int),
            cur == depth(toks_v(t@), k as int),
            angle_close(toks_v(t@), j as int) == angle_close_from(
                toks_v(t@),
                base as int,
                k as int,
            ),
        decreases t@.len() - k,
    {
        proof {
            lemma_depth_bound(toks_v(t@), k as int);
        }
        let next = cur + angle_delta_exec(t, k);
        if next == base {
            return k;
        }
        cur = next;
        k = k + 1;
    }
    t.len()
}

fn c_void_tokens(out: &mut Vec<Tok>)
    ensures
        toks_v(final(out)@) == toks_v(old(out)@) + c_void_path(),
{
    push_tok(out, new_ident("std"));
    push_tok(out, Tok::Punct(':', true));
    push_tok(out, new_punct(':'));
    push_tok(out, new_ident("ffi"));
    push_tok(out, Tok::Punct(':', true));
    push_tok(out, new_punct(':'));
    push_tok(out, new_ident("c_void"));
    assert(toks_v(out@) =~= toks_v(old(out)@) + c_void_path());
}

fn one(t: Tok) -> (r: Vec<Tok>)
    ensures
        toks_v(r@) == seq![tok_v(t)],
{
    let mut v = Vec::new();
    push_tok(&mut v, t);
    assert(toks_v(v@) =~= seq![tok_v(t)]);
    v
}

fn two(a: Tok, b: Tok) -> (r: Vec<Tok>)
    ensures
        toks_v(r@) == seq![tok_v(a), tok_v(b)],
{
    let mut v = Vec::new();
    push_tok(&mut v, a);
    push_tok(&mut v, b);
    assert(toks_v(v@) =~= seq![tok_v(a), tok_v(b)]);
    v
}

/// The Rust tokens of a Swift built-in type name.
fn builtin_type_exec(n: &str) -> (r: Option<Vec<Tok>>)
    ensures
        r matches Some(v) ==> builtin_type(n@) == Some(toks_v(v@)),
        r is None ==> builtin_type(n@) is None,
{
    if str_eq(n, "UInt8") {
        Some(one(new_ident("u8")))
    } else if str_eq(n, "Int8") {
        Some(one(new_ident("i8")))
    } else if str_eq(n, "UInt16") {
        Some(one(new_ident("u16")))
    } else if str_eq(n, "Int16") {
        Some(one(new_ident("i16")))
    } else if str_eq(n, "UInt32") {
        Some(one(new_ident("u32")))
    } else if str_eq(n, "Int32") {
        Some(one(new_ident("i32")))
    } else if str_eq(n, "UInt64") {
        Some(one(new_ident("u64")))
    } else if str_eq(n, "Int64") {
        Some(one(new_ident("i64")))
    } else if str_eq(n, "UInt") {
        Some(one(new_ident("usize")))
    } else if str_eq(n, "Int") {
        Some(one(new_ident("isize")))
    } else if str_eq(n, "Float") {
        Some(one(new_ident("f32")))
    } else if str_eq(n, "Double") {
        Some(one(new_ident("f64")))
    } else if str_eq(n, "Bool") {
        Some(one(new_ident("bool")))
    } else if str_eq(n, "Void") {
        let g = Tok::Group(Delimiter::Parenthesis, Vec::new());
        assert(tok_v(g) == TokV::Group(Delimiter::Parenthesis, Seq::empty()));
        Some(one(g))
    } else if str_eq(n, "RustString") {
        Some(one(new_ident("String")))
    } else if str_eq(n, "RustStringRef") {
        Some(two(new_punct('&'), new_ident("String")))
    } else if str_eq(n, "RustStringRefMut") {
        let mut v = two(new_punct('&'), new_ident("mut"));
        push_tok(&mut v, new_ident("String"));
        assert(toks_v(v@) =~= seq![punct('&'), ident("mut"@), ident("String"@)]);
        Some(v)
    } else if str_eq(n, "RustStr") {
        Some(two(new_punct('&'), new_ident("str")))
    } else if str_eq(n, "UnsafeRawPointer") {
        let mut v = two(new_punct('*'), new_ident("const"));
        c_void_tokens(&mut v);
        Some(v)
    } else if str_eq(n, "UnsafeMutableRawPointer") {
        let mut v = two(new_punct('*'), new_ident("mut"));
        c_void_tokens(&mut v);
        Some(v)
    } else {
        None
    }
}

fn generic_type_exec(n: &str) -> (r: Option<&'static str>)
    ensures
        r matches Some(x) ==> generic_type(n@) == Some(x@),
        r is None ==> generic_type(n@) is None,
{
    if str_eq(n, "Optional") {
        Some("Option")
    } else if str_eq(n, "RustVec") {
        Some("Vec")
    } else if str_eq(n, "RustResult") {
        Some("Result")
    } else {
        None
    }
}

fn pointer_type_exec(n: &str) -> (r: Option<bool>)
    ensures
        r == pointer_type(n@),
{
    if str_eq(n, "UnsafePointer") {
        Some(true)
    } else if str_eq(n, "UnsafeMutablePointer") {
        Some(false)
    } else {
        None
    }
}

fn is_type_arg_exec(t: &Vec<Tok>, i: usize, e: usize) -> (r: bool)
    requires
        i <= e <= t@.len(),
    ensures
        r == is_type_arg(toks_v(t@), i as int, e as int),
{
    proof {
        lemma_toks_v(t@);
    }
    if i >= e {
        return false;
    }
    let first = &t[i];
    let is_id = match first {
        Tok::Ident(_) => true,
        _ => false,
    };
    let lifetime = tok_is_punct(first, '\'');
    let binding = is_id && i + 1 < e && tok_is_punct(&t[i + 1], '=');
    let constraint = is_id && i + 1 < e && tok_is_punct(&t[i + 1], ':') && !colon2_exec(t, i + 1);
    let literal = match first {
        Tok::Literal(_) => true,
        _ => false,
    };
    let block = match first {
        Tok::Group(d, _) => *d == Delimiter::Brace,
        _ => false,
    };
    let neg = tok_is_punct(first, '-');
    !lifetime && !binding && !constraint && !literal && !block && !neg
}

fn arg_count_exec(t: &Vec<Tok>, d: i128, i: usize, end: usize) -> (r: usize)
    requires
        i <= end <= t@.len(),
    ensures
        r == arg_count(toks_v(t@), d as int, i as int, end as int),
    decreases end - i,
{
    if i >= end {
        0
    } else {
        let e = next_sep_exec(t, ',', d, i, end);
        if e >= end {
            1
        } else {
            let rest = arg_count_exec(t, d, e + 1, end);
            proof {
                assert(rest <= end - e - 1) by {
                    lemma_arg_count_bound(toks_v(t@), d as int, e + 1, end as int);
                }
            }
            1 + rest
        }
    }
}

proof fn lemma_arg_count_bound(t: Seq<TokV>, d: int, i: int, end: int)
    requires
        i <= end,
    ensures
        arg_count(t, d, i, end) <= if i < end { end - i } else { 0 },
    decreases end - i,
{
    if i < end {
        lemma_next_sep(t, ',', d, i, end);
        let e = next_sep(t, ',', d, i, end);
        if e < end {
            lemma_arg_count_bound(t, d, e + 1, end);
        }
    }
}

fn ref_prefix_len_exec(t: &Vec<Tok>) -> (r: usize)
    requires
        t@.len() > 0,
    ensures
        r == ref_prefix_len(toks_v(t@)),
        1 <= r <= t@.len(),
{
    proof {
        lemma_toks_v(t@);
    }
    let lifetime = t.len() > 2 && tok_is_punct(&t[1], '\'') && match &t[2] {
        Tok::Ident(_) => true,
        _ => false,
    };
    let i: usize = if lifetime {
        3
    } else {
        1
    };
    if i < t.len() && tok_is_ident(&t[i], "mut") {
        i + 1
    } else {
        i
    }
}

fn angle_start_exec(t: &Vec<Tok>) -> (r: usize)
    ensures
        r == angle_start(toks_v(t@)),
        r > 0 ==> r < t@.len(),
{
    proof {
        lemma_toks_v(t@);
    }
    if t.len() > 1 && tok_is_punct(&t[1], '<') {
        1
    } else if colon2_exec(t, 1) && t.len() > 3 && tok_is_punct(&t[3], '<') {
        3
    } else {
        0
    }
}

/// The end of the path segment at `i`, when its brackets are closed.
fn seg_end_checked(t: &Vec<Tok>, i: usize) -> (r: Option<usize>)
    requires
        i < t@.len(),
    ensures
        r matches Some(e) ==> e == seg_end(toks_v(t@), i as int) && e <= t@.len(),
        r is None ==> seg_end(toks_v(t@), i as int) > t@.len(),
{
    proof {
        lemma_toks_v(t@);
        lemma_seg_end(toks_v(t@), i as int);
    }
    let n = t.len();
    let j = i + 1;
    if j < t.len() && tok_is_punct(&t[j], '<') {
        let c = angle_close_exec(t, j);
        proof {
            lemma_angle_close(toks_v(t@), depth(toks_v(t@), j as int), j + 1);
        }
        if c < t.len() {
            Some(c + 1)
        } else {
            None
        }
    } else if colon2_exec(t, j) && j + 2 < t.len() && tok_is_punct(&t[j + 2], '<') {
        let c = angle_close_exec(t, j + 2);
        proof {
            lemma_angle_close(toks_v(t@), depth(toks_v(t@), j + 2), j + 3);
        }
        if c < t.len() {
            Some(c + 1)
        } else {
            None
        }
    } else if j < t.len() && match &t[j] {
        Tok::Group(d, _) => *d == Delimiter::Parenthesis,
        _ => false,
    } {
        if arrow_exec(t, j + 1) {
            Some(t.len())
        } else {
            Some(j + 1)
        }
    } else {
        Some(j)
    }
}

fn path_from_exec(t: &Vec<Tok>, i: usize) -> (r: bool)
    ensures
        r == path_from(toks_v(t@), i as int),
    decreases t@.len() - i,
{
    proof {
        lemma_toks_v(t@);
    }
    if !path_ident_exec(t, i) {
        return false;
    }
    proof {
        lemma_seg_end(toks_v(t@), i as int);
    }
    match seg_end_checked(t, i) {
        None => false,
        Some(e) => e == t.len() || (colon2_exec(t, e) && path_from_exec(t, e + 2)),
    }
}

/// Normalizes the types in the arguments of the path segments `t[i..]`.
fn normalize_path(t: &Vec<Tok>, i: usize) -> (r: Result<Vec<Tok>, SwiftSyntaxError>)
    requires
        path_from(toks_v(t@), i as int),
    ensures
        res_v(r) == norm_path(toks_v(t@), i as int),
    decreases toks_v(t@), 0int, t@.len() - i + 1,
{
    proof {
        lemma_toks_v(t@);
        lemma_seg_end(toks_v(t@), i as int);
    }
    let ghost tv = toks_v(t@);
    let e = match seg_end_checked(t, i) {
        Some(e) => e,
        None => return Err(SwiftSyntaxError::Syntax),
    };
    let s = match normalize_seg(t, i) {
        Ok(s) => s,
        Err(x) => return Err(x),
    };
    if e == t.len() {
        return Ok(s);
    }
    match normalize_path(t, e + 2) {
        Ok(r) => {
            let ghost sv = toks_v(s@);
            let mut out = s;
            let colons = copy_range(t, e, e + 2);
            extend_copy(&mut out, &colons);
            extend_copy(&mut out, &r);
            assert(toks_v(out@) =~= sv + tv.subrange(e as int, e + 2) + toks_v(r@));
            Ok(out)
        },
        Err(x) => Err(x),
    }
}

/// Normalizes the types in the arguments of the path segment at `i`.
#[verifier::rlimit(50)]
fn normalize_seg(t: &Vec<Tok>, i: usize) -> (r: Result<Vec<Tok>, SwiftSyntaxError>)
    requires
        i < t@.len(),
        seg_end(toks_v(t@), i as int) <= t@.len(),
    ensures
        res_v(r) == norm_seg(toks_v(t@), i as int),
    decreases toks_v(t@), 0int, t@.len() - i,
{
    proof {
        lemma_toks_v(t@);
    }
    let ghost tv = toks_v(t@);
    let j = i + 1;
    if j < t.len() && tok_is_punct(&t[j], '<') {
        let c = angle_close_exec(t, j);
        proof {
            lemma_angle_close(tv, depth(tv, j as int), j + 1);
        }
        match normalize_generic_args(t, j + 1, c) {
            Ok(a) => {
                let mut out = Vec::new();
                push_tok(&mut out, t[i].copy());
                push_tok(&mut out, new_punct('<'));
                extend_copy(&mut out, &a);
                push_tok(&mut out, new_punct('>'));
                assert(toks_v(out@) =~= seq![tv[i as int], punct('<')] + toks_v(a@) + seq![
                    punct('>'),
                ]);
                Ok(out)
            },
            Err(x) => Err(x),
        }
    } else if colon2_exec(t, j) && j + 2 < t.len() && tok_is_punct(&t[j + 2], '<') {
        let c = angle_close_exec(t, j + 2);
        proof {
            lemma_angle_close(tv, depth(tv, j + 2), j + 3);
        }
        match normalize_generic_args(t, j + 3, c) {
            Ok(a) => {
                let mut out = Vec::new();
                push_tok(&mut out, t[i].copy());
                push_tok(&mut out, t[j].copy());
                push_tok(&mut out, t[j + 1].copy());
                push_tok(&mut out, new_punct('<'));
                extend_copy(&mut out, &a);
                push_tok(&mut out, new_punct('>'));
                assert(toks_v(out@) =~= seq![tv[i as int], tv[j as int], tv[j + 1], punct('<')]
                    + toks_v(a@) + seq![punct('>')]);
                Ok(out)
            },
            Err(x) => Err(x),
        }
    } else if j < t.len() && match &t[j] {
        Tok::Group(d, _) => *d == Delimiter::Parenthesis,
        _ => false,
    } {
        let ins = match &t[j] {
            Tok::Group(_, g) => {
                assert(decreases_to!(tv => tv[j as int]));
                normalize_elems(g, 0)
            },
            _ => Err(SwiftSyntaxError::Syntax),
        };
        let ins = match ins {
            Ok(x) => x,
            Err(x) => return Err(x),
        };
        let ghost insv = toks_v(ins@);
        if arrow_exec(t, j + 1) {
            let rest = copy_range(t, j + 3, t.len());
            match normalize_swift_type(&rest) {
                Ok(o) => {
                    let mut out = Vec::new();
                    push_tok(&mut out, t[i].copy());
                    push_tok(&mut out, Tok::Group(Delimiter::Parenthesis, ins));
                    push_tok(&mut out, t[j + 1].copy());
                    push_tok(&mut out, t[j + 2].copy());
                    extend_copy(&mut out, &o);
                    assert(toks_v(out@) =~= seq![
                        tv[i as int],
                        TokV::Group(Delimiter::Parenthesis, insv),
                        tv[j + 1],
                        tv[j + 2],
                    ] + toks_v(o@));
                    Ok(out)
                },
                Err(x) => Err(x),
            }
        } else {
            let mut out = Vec::new();
            push_tok(&mut out, t[i].copy());
            push_tok(&mut out, Tok::Group(Delimiter::Parenthesis, ins));
            assert(toks_v(out@) =~= seq![tv[i as int], TokV::Group(Delimiter::Parenthesis, insv)]);
            Ok(out)
        }
    } else {
        Ok(one(t[i].copy()))
    }
}

/// Normalizes the Swift spelling of a type to its Rust spelling: built-in
/// Swift names become Rust types, `Optional`/`RustVec`/`RustResult` become
/// `Option`/`Vec`/`Result`, `UnsafePointer<T>`/`UnsafeMutablePointer<T>`
/// become `*const T`/`*mut T`, and the types inside generic arguments,
/// tuples, references and pointers are normalized in turn.
pub fn normalize_swift_type(t: &Vec<Tok>) -> (r: Result<Vec<Tok>, SwiftSyntaxError>)
    ensures
        res_v(r) == norm_type(toks_v(t@)),
    decreases toks_v(t@), 1int, 0int,
{
    proof {
        lemma_toks_v(t@);
    }
    let ghost tv = toks_v(t@);
    let n = t.len();
    if n == 0 {
        let v: Vec<Tok> = Vec::new();
        assert(toks_v(v@) =~= tv);
        return Ok(v);
    }
    if n == 1 {
        if let Tok::Ident(name) = &t[0] {
            if let Some(v) = builtin_type_exec(name.as_str()) {
                return Ok(v);
            }
        }
    }
    let head_is_ident = match &t[0] {
        Tok::Ident(_) => true,
        _ => false,
    };
    let ab = angle_start_exec(t);
    if head_is_ident && ab > 0 && angle_close_exec(t, ab) == n - 1 {
        let name = match &t[0] {
            Tok::Ident(x) => x.as_str(),
            _ => "",
        };
        assert(name@ == tv[0]->Ident_0);
        if let Some(rust) = generic_type_exec(name) {
            match normalize_generic_args(t, ab + 1, n - 1) {
                Ok(a) => {
                    let mut out = Vec::new();
                    push_tok(&mut out, new_ident(rust));
                    let colons = copy_range(t, 1, ab);
                    extend_copy(&mut out, &colons);
                    push_tok(&mut out, new_punct('<'));
                    extend_copy(&mut out, &a);
                    push_tok(&mut out, new_punct('>'));
                    assert(toks_v(out@) =~= seq![ident(rust@)] + tv.subrange(1, ab as int) + seq![
                        punct('<'),
                    ] + toks_v(a@) + seq![punct('>')]);
                    return Ok(out);
                },
                Err(e) => return Err(e),
            }
        } else if let Some(is_const) = pointer_type_exec(name) {
            let end = n - 1;
            let e = next_sep_exec(t, ',', 1, ab + 1, end);
            if arg_count_exec(t, 1, ab + 1, end) != 1 {
                return Err(SwiftSyntaxError::PointerArity(written_name(&t[0])));
            }
            if !is_type_arg_exec(t, ab + 1, e) {
                return Err(SwiftSyntaxError::PointerArgument(written_name(&t[0])));
            }
            let inner_toks = copy_range(t, ab + 1, e);
            match normalize_swift_type(&inner_toks) {
                Ok(inner) => {
                    let mut out = Vec::new();
                    push_tok(&mut out, new_punct('*'));
                    if is_const {
                        push_tok(&mut out, new_ident("const"));
                    } else {
                        push_tok(&mut out, new_ident("mut"));
                    }
                    extend_copy(&mut out, &inner);
                    assert(toks_v(out@) =~= seq![
                        punct('*'),
                        ident(
                            if is_const {
                                "const"@
                            } else {
                                "mut"@
                            },
                        ),
                    ] + toks_v(inner@));
                    return Ok(out);
                },
                Err(err) => return Err(err),
            }
        }
    }
    let st: usize = if colon2_exec(t, 0) {
        2
    } else {
        0
    };
    if path_from_exec(t, st) {
        match normalize_path(t, st) {
            Ok(p) => {
                let mut out = copy_range(t, 0, st);
                extend_copy(&mut out, &p);
                return Ok(out);
            },
            Err(e) => return Err(e),
        }
    }
    if tok_is_punct(&t[0], '<') {
        let c = angle_close_exec(t, 0);
        if c < n && n - c > 3 && colon2_exec(t, c + 1) && path_from_exec(t, c + 3) {
            proof {
                lemma_angle_close(tv, depth(tv, 0), 1);
            }
            let k = qself_as_exec(t, 1, c);
            if k < c {
                let tr = copy_range(t, k + 1, c);
                let tst: usize = if colon2_exec(&tr, 0) {
                    2
                } else {
                    0
                };
                proof {
                    lemma_toks_v(tr@);
                }
                assert(tst <= tr.len());
                if path_from_exec(&tr, tst) {
                    let q = match normalize_path(&tr, tst) {
                        Ok(q) => q,
                        Err(e) => return Err(e),
                    };
                    match normalize_path(t, c + 3) {
                        Ok(p) => {
                            let mut out = copy_range(t, 0, k + 1);
                            let lead = copy_range(&tr, 0, tst);
                            extend_copy(&mut out, &lead);
                            extend_copy(&mut out, &q);
                            let colons = copy_range(t, c, c + 3);
                            extend_copy(&mut out, &colons);
                            extend_copy(&mut out, &p);
                            return Ok(out);
                        },
                        Err(e) => return Err(e),
                    }
                }
            }
            match normalize_path(t, c + 3) {
                Ok(p) => {
                    let mut out = copy_range(t, 0, c + 3);
                    extend_copy(&mut out, &p);
                    return Ok(out);
                },
                Err(e) => return Err(e),
            }
        }
    }
    if n == 1 {
        if let Tok::Group(d, g) = &t[0] {
            assert(tv[0] == TokV::Group(*d, toks_v(g@)));
            assert(decreases_to!(tv => tv[0]));
            if *d == Delimiter::Parenthesis {
                match normalize_elems(g, 0) {
                    Ok(a) => {
                        let tok = Tok::Group(Delimiter::Parenthesis, a);
                        return Ok(one(tok));
                    },
                    Err(e) => return Err(e),
                }
            } else if *d == Delimiter::Invisible {
                match normalize_swift_type(g) {
                    Ok(a) => {
                        let tok = Tok::Group(Delimiter::Invisible, a);
                        return Ok(one(tok));
                    },
                    Err(e) => return Err(e),
                }
            }
        }
    }
    if tok_is_punct(&t[0], '&') {
        let i = ref_prefix_len_exec(t);
        let rest = copy_range(t, i, n);
        match normalize_swift_type(&rest) {
            Ok(a) => {
                let mut out = copy_range(t, 0, i);
                extend_copy(&mut out, &a);
                return Ok(out);
            },
            Err(e) => return Err(e),
        }
    }
    if tok_is_punct(&t[0], '*') && n > 1 && (tok_is_ident(&t[1], "const") || tok_is_ident(
        &t[1],
        "mut",
    )) {
        let rest = copy_range(t, 2, n);
        match normalize_swift_type(&rest) {
            Ok(a) => {
                let mut out = copy_range(t, 0, 2);
                extend_copy(&mut out, &a);
                return Ok(out);
            },
            Err(e) => return Err(e),
        }
    }
    let out = copy_range(t, 0, n);
    assert(tv.subrange(0, n as int) =~= tv);
    Ok(out)
}

/// Normalizes the generic arguments `t[i..end)` (at depth 1 in `t`).
fn normalize_generic_args(t: &Vec<Tok>, i: usize, end: usize) -> (r: Result<
    Vec<Tok>,
    SwiftSyntaxError,
>)
    requires
        i <= end <= t@.len(),
    ensures
        res_v(r) == norm_args(toks_v(t@), i as int, end as int),
    decreases toks_v(t@), 0int, end - i + 1,
{
    proof {
        lemma_toks_v(t@);
    }
    if i == 0 && end == t.len() {
        return Ok(Vec::new());
    }
    let e = next_sep_exec(t, ',', 1, i, end);
    let piece = normalize_generic_arg(t, i, e);
    if e >= end {
        return piece;
    }
    let p = match piece {
        Ok(p) => p,
        Err(x) => return Err(x),
    };
    match normalize_generic_args(t, e + 1, end) {
        Ok(r) => {
            let ghost pv = toks_v(p@);
            let mut out = p;
            push_tok(&mut out, new_punct(','));
            extend_copy(&mut out, &r);
            assert(toks_v(out@) =~= pv + seq![punct(',')] + toks_v(r@));
            Ok(out)
        },
        Err(x) => Err(x),
    }
}

/// Normalizes one generic argument `t[i..e)`.
fn normalize_generic_arg(t: &Vec<Tok>, i: usize, e: usize) -> (r: Result<
    Vec<Tok>,
    SwiftSyntaxError,
>)
    requires
        i <= e <= t@.len(),
    ensures
        res_v(r) == norm_generic_arg(toks_v(t@), i as int, e as int),
    decreases toks_v(t@), 0int, 0int,
{
    proof {
        lemma_toks_v(t@);
    }
    if i == 0 && e == t.len() || i == e {
        return Ok(copy_range(t, i, e));
    }
    let is_id = match &t[i] {
        Tok::Ident(_) => true,
        _ => false,
    };
    let eq_next = i + 1 < e && tok_is_punct(&t[i + 1], '=');
    if is_id && eq_next {
        let rest = copy_range(t, i + 2, e);
        match normalize_swift_type(&rest) {
            Ok(a) => {
                let mut out = copy_range(t, i, i + 2);
                extend_copy(&mut out, &a);
                Ok(out)
            },
            Err(x) => Err(x),
        }
    } else if is_type_arg_exec(t, i, e) {
        let piece = copy_range(t, i, e);
        normalize_swift_type(&piece)
    } else {
        Ok(copy_range(t, i, e))
    }
}

/// Normalizes the comma-separated types `g[i..]` of a tuple.
fn normalize_elems(g: &Vec<Tok>, i: usize) -> (r: Result<Vec<Tok>, SwiftSyntaxError>)
    requires
        i <= g@.len(),
    ensures
        res_v(r) == norm_elems(toks_v(g@), i as int),
    decreases toks_v(g@), 2int, g@.len() - i + 1,
{
    proof {
        lemma_toks_v(g@);
    }
    let e = next_sep_exec(g, ',', 0, i, g.len());
    let piece_toks = copy_range(g, i, e);
    proof {
        if i == 0 && e == g.len() {
            assert(toks_v(g@).subrange(i as int, e as int) =~= toks_v(g@));
        }
    }
    let piece = normalize_swift_type(&piece_toks);
    if e >= g.len() {
        return piece;
    }
    let p = match piece {
        Ok(p) => p,
        Err(x) => return Err(x),
    };
    match normalize_elems(g, e + 1) {
        Ok(r) => {
            let ghost pv = toks_v(p@);
            let mut out = p;
            push_tok(&mut out, new_punct(','));
            extend_copy(&mut out, &r);
            assert(toks_v(out@) =~= pv + seq![punct(',')] + toks_v(r@));
            Ok(out)
        },
        Err(x) => Err(x),
    }
}


/// Each Swift built-in type name (`UInt8`, `Int`, `Bool`, `Void`,
/// `RustString`, `RustStr`, `UnsafeRawPointer`, ...) becomes its Rust type.
pub proof fn lemma_builtin_type_names(n: Seq<char>)
    requires
        builtin_type(n) is Some,
    ensures
        norm_type(seq![ident(n)]) == Ok::<Seq<TokV>, SwiftSyntaxErrorV>(builtin_type(n).unwrap()),
{
}

/// Every other type name, written without generic arguments, is kept as it
/// is written (`String`, `UserId`, ...).
pub proof fn lemma_other_type_names_are_kept(n: Seq<char>)
    requires
        builtin_type(n) is None,
        path_ident(n),
    ensures
        norm_type(seq![ident(n)]) == Ok::<Seq<TokV>, SwiftSyntaxErrorV>(seq![ident(n)]),
{
    let t = seq![ident(n)];
    assert(!colon2_at(t, 0));
    assert(path_start(t) == 0);
    assert(!mapped_generic(t));
    assert(seg_end(t, 0) == 1);
    assert(path_from(t, 0));
    assert(norm_seg(t, 0) == Ok::<Seq<TokV>, SwiftSyntaxErrorV>(t));
    assert(norm_path(t, 0) == Ok::<Seq<TokV>, SwiftSyntaxErrorV>(t));
    assert(t.subrange(0, 0) + t =~= t);
}

/// `Optional<T>`, `RustVec<T>` and `RustResult<T>` of a built-in `T` become
/// `Option`, `Vec` and `Result` of its Rust type; `UnsafePointer<T>` and
/// `UnsafeMutablePointer<T>` become `*const` and `*mut` of it.
pub proof fn lemma_generic_of_builtin(g: Seq<char>, m: Seq<char>)
    requires
        generic_type(g) is Some || pointer_type(g) is Some,
        builtin_type(m) is Some,
    ensures
        generic_type(g) is Some ==> norm_type(seq![ident(g), punct('<'), ident(m), punct('>')])
            == Ok::<Seq<TokV>, SwiftSyntaxErrorV>(
            seq![ident(generic_type(g).unwrap()), punct('<')] + builtin_type(m).unwrap() + seq![
                punct('>'),
            ],
        ),
        pointer_type(g) is Some ==> norm_type(seq![ident(g), punct('<'), ident(m), punct('>')])
            == Ok::<Seq<TokV>, SwiftSyntaxErrorV>(
            seq![
                punct('*'),
                ident(
                    if pointer_type(g).unwrap() {
                        "const"@
                    } else {
                        "mut"@
                    },
                ),
            ] + builtin_type(m).unwrap(),
        ),
{
    let t = seq![ident(g), punct('<'), ident(m), punct('>')];
    assert(t[0] == ident(g) && t[1] == punct('<') && t[2] == ident(m) && t[3] == punct('>'));
    assert(depth(t, 0) == 0);
    assert(angle_delta(t, 0) == 0);
    assert(angle_delta(t, 1) == 1);
    assert(angle_delta(t, 2) == 0);
    assert(angle_delta(t, 3) == -1);
    assert(depth(t, 1) == 0);
    assert(depth(t, 2) == 1);
    assert(depth(t, 3) == 1);
    assert(depth(t, 4) == 0);
    assert(angle_close_from(t, 0, 3) == 3);
    assert(angle_close_from(t, 0, 2) == 3);
    assert(angle_close(t, 1) == 3);
    assert(next_sep(t, ',', 1, 3, 3) == 3);
    assert(next_sep(t, ',', 1, 2, 3) == 3);
    assert(t.subrange(2, 3) =~= seq![ident(m)]);
    assert(is_type_arg(t, 2, 3));
    let b = builtin_type(m).unwrap();
    assert(angle_start(t) == 1);
    assert(t.subrange(1, 1) =~= Seq::<TokV>::empty());
    reveal_strlit("Optional");
    reveal_strlit("RustVec");
    reveal_strlit("RustResult");
    reveal_strlit("UnsafePointer");
    reveal_strlit("UnsafeMutablePointer");
    assert(norm_type(seq![ident(m)]) == Ok::<Seq<TokV>, SwiftSyntaxErrorV>(b));
    assert(norm_generic_arg(t, 2, 3) == Ok::<Seq<TokV>, SwiftSyntaxErrorV>(b));
    assert(norm_args(t, 2, 3) == Ok::<Seq<TokV>, SwiftSyntaxErrorV>(b));
    assert(arg_count(t, 1, 3, 3) == 0);
    assert(arg_count(t, 1, 2, 3) == 1);
    assert(norm_type(t.subrange(2, 3)) == Ok::<Seq<TokV>, SwiftSyntaxErrorV>(b));
    assert(mapped_generic(t));
    if generic_type(g) is Some {
        assert(seq![ident(generic_type(g).unwrap())] + t.subrange(1, 1) + seq![punct('<')] + b
            + seq![punct('>')] =~= seq![ident(generic_type(g).unwrap()), punct('<')] + b + seq![
            punct('>'),
        ]);
    }
    if pointer_type(g) is Some {
        assert(g.len() != 8 && g.len() != 7 && g.len() != 10);
        assert(generic_type(g) is None);
        assert(t.len() >= 3 && t[0] is Ident && punct_at(t, 1, '<') && angle_close(t, 1) == t.len()
            - 1);
        assert(!(t.len() == 1));
        assert(t[0]->Ident_0 == g);
    }
}


/// The Swift built-in type names and the Rust types they are rewritten to,
/// row by row: `UInt8` to `u8`, ..., `Void` to `()`, `RustString` to
/// `String`, `RustStringRef` to `& String`, `RustStringRefMut` to
/// `& mut String`, `RustStr` to `& str`, and the raw pointers to
/// `*const`/`*mut std::ffi::c_void`.
/// One row of the table of Swift built-in type names.
proof fn lemma_table_row(n: Seq<char>, t: Seq<TokV>)
    requires
        builtin_type(n) == Some(t),
    ensures
        norm_type(seq![ident(n)]) == Ok::<Seq<TokV>, SwiftSyntaxErrorV>(t),
{
    lemma_builtin_type_names(n);
}

#[verifier::rlimit(100)]
pub proof fn lemma_swift_builtin_type_table()
    ensures
        norm_type(seq![ident("UInt8"@)]) == Ok::<Seq<TokV>, SwiftSyntaxErrorV>(seq![ident("u8"@)]),
        norm_type(seq![ident("Int8"@)]) == Ok::<Seq<TokV>, SwiftSyntaxErrorV>(seq![ident("i8"@)]),
        norm_type(seq![ident("UInt16"@)]) == Ok::<Seq<TokV>, SwiftSyntaxErrorV>(seq![ident("u16"@)]),
        norm_type(seq![ident("Int16"@)]) == Ok::<Seq<TokV>, SwiftSyntaxErrorV>(seq![ident("i16"@)]),
        norm_type(seq![ident("UInt32"@)]) == Ok::<Seq<TokV>, SwiftSyntaxErrorV>(seq![ident("u32"@)]),
        norm_type(seq![ident("Int32"@)]) == Ok::<Seq<TokV>, SwiftSyntaxErrorV>(seq![ident("i32"@)]),
        norm_type(seq![ident("UInt64"@)]) == Ok::<Seq<TokV>, SwiftSyntaxErrorV>(seq![ident("u64"@)]),
        norm_type(seq![ident("Int64"@)]) == Ok::<Seq<TokV>, SwiftSyntaxErrorV>(seq![ident("i64"@)]),
        norm_type(seq![ident("UInt"@)]) == Ok::<Seq<TokV>, SwiftSyntaxErrorV>(seq![ident("usize"@)]),
        norm_type(seq![ident("Int"@)]) == Ok::<Seq<TokV>, SwiftSyntaxErrorV>(seq![ident("isize"@)]),
        norm_type(seq![ident("Float"@)]) == Ok::<Seq<TokV>, SwiftSyntaxErrorV>(seq![ident("f32"@)]),
        norm_type(seq![ident("Double"@)]) == Ok::<Seq<TokV>, SwiftSyntaxErrorV>(seq![ident("f64"@)]),
        norm_type(seq![ident("Bool"@)]) == Ok::<Seq<TokV>, SwiftSyntaxErrorV>(seq![ident("bool"@)]),
        norm_type(seq![ident("Void"@)]) == Ok::<Seq<TokV>, SwiftSyntaxErrorV>(seq![TokV::Group(Delimiter::Parenthesis, Seq::empty())]),
        norm_type(seq![ident("RustString"@)]) == Ok::<Seq<TokV>, SwiftSyntaxErrorV>(seq![ident("String"@)]),
        norm_type(seq![ident("RustStringRef"@)]) == Ok::<Seq<TokV>, SwiftSyntaxErrorV>(seq![punct('&'), ident("String"@)]),
        norm_type(seq![ident("RustStringRefMut"@)]) == Ok::<Seq<TokV>, SwiftSyntaxErrorV>(seq![punct('&'), ident("mut"@), ident("String"@)]),
        norm_type(seq![ident("RustStr"@)]) == Ok::<Seq<TokV>, SwiftSyntaxErrorV>(seq![punct('&'), ident("str"@)]),
        norm_type(seq![ident("UnsafeRawPointer"@)]) == Ok::<Seq<TokV>, SwiftSyntaxErrorV>(seq![punct('*'), ident("const"@), ident("std"@), TokV::Punct(':', true), punct(':'), ident("ffi"@), TokV::Punct(':', true), punct(':'), ident("c_void"@)]),
        norm_type(seq![ident("UnsafeMutableRawPointer"@)]) == Ok::<Seq<TokV>, SwiftSyntaxErrorV>(seq![punct('*'), ident("mut"@), ident("std"@), TokV::Punct(':', true), punct(':'), ident("ffi"@), TokV::Punct(':', true), punct(':'), ident("c_void"@)]),
{
    reveal_strlit("UInt8");
    reveal_strlit("Int8");
    reveal_strlit("UInt16");
    reveal_strlit("Int16");
    reveal_strlit("UInt32");
    reveal_strlit("Int32");
    reveal_strlit("UInt64");
    reveal_strlit("Int64");
    reveal_strlit("UInt");
    reveal_strlit("Int");
    reveal_strlit("Float");
    reveal_strlit("Double");
    reveal_strlit("Bool");
    reveal_strlit("Void");
    reveal_strlit("RustString");
    reveal_strlit("RustStringRef");
    reveal_strlit("RustStringRefMut");
    reveal_strlit("RustStr");
    reveal_strlit("UnsafeRawPointer");
    reveal_strlit("UnsafeMutableRawPointer");
    assert(builtin_type("UInt8"@) == Some(seq![ident("u8"@)])) by {
        reveal_strlit("UInt8");
    }
    lemma_table_row("UInt8"@, seq![ident("u8"@)]);
    assert(builtin_type("Int8"@) == Some(seq![ident("i8"@)])) by {
        reveal_strlit("UInt8");
        reveal_strlit("Int8");
        assert("UInt8"@ != "Int8"@) by {
            if "UInt8"@.len() == "Int8"@.len() {
                assert(exists|j: int| 0 <= j < "Int8"@.len() && "UInt8"@[j] != "Int8"@[j]) by {
                    
                }
            }
        }
    }
    lemma_table_row("Int8"@, seq![ident("i8"@)]);
    assert(builtin_type("UInt16"@) == Some(seq![ident("u16"@)])) by {
        reveal_strlit("UInt8");
        reveal_strlit("Int8");
        reveal_strlit("UInt16");
        assert("UInt8"@ != "UInt16"@) by {
            if "UInt8"@.len() == "UInt16"@.len() {
                assert(exists|j: int| 0 <= j < "UInt16"@.len() && "UInt8"@[j] != "UInt16"@[j]) by {
                    
                }
            }
        }
        assert("Int8"@ != "UInt16"@) by {
            if "Int8"@.len() == "UInt16"@.len() {
                assert(exists|j: int| 0 <= j < "UInt16"@.len() && "Int8"@[j] != "UInt16"@[j]) by {
                    
                }
            }
        }
    }
    lemma_table_row("UInt16"@, seq![ident("u16"@)]);
    assert(builtin_type("Int16"@) == Some(seq![ident("i16"@)])) by {
        reveal_strlit("UInt8");
        reveal_strlit("Int8");
        reveal_strlit("UInt16");
        reveal_strlit("Int16");
        assert("UInt8"@ != "Int16"@) by {
            if "UInt8"@.len() == "Int16"@.len() {
                assert(exists|j: int| 0 <= j < "Int16"@.len() && "UInt8"@[j] != "Int16"@[j]) by {
                    assert("UInt8"@[0] != "Int16"@[0]);
                }
            }
        }
        assert("Int8"@ != "Int16"@) by {
            if "Int8"@.len() == "Int16"@.len() {
                assert(exists|j: int| 0 <= j < "Int16"@.len() && "Int8"@[j] != "Int16"@[j]) by {
                    
                }
            }
        }
        assert("UInt16"@ != "Int16"@) by {
            if "UInt16"@.len() == "Int16"@.len() {
                assert(exists|j: int| 0 <= j < "Int16"@.len() && "UInt16"@[j] != "Int16"@[j]) by {
                    
                }
            }
        }
    }
    lemma_table_row("Int16"@, seq![ident("i16"@)]);
    assert(builtin_type("UInt32"@) == Some(seq![ident("u32"@)])) by {
        reveal_strlit("UInt8");
        reveal_strlit("Int8");
        reveal_strlit("UInt16");
        reveal_strlit("Int16");
        reveal_strlit("UInt32");
        assert("UInt8"@ != "UInt32"@) by {
            if "UInt8"@.len() == "UInt32"@.len() {
                assert(exists|j: int| 0 <= j < "UInt32"@.len() && "UInt8"@[j] != "UInt32"@[j]) by {
                    
                }
            }
        }
        assert("Int8"@ != "UInt32"@) by {
            if "Int8"@.len() == "UInt32"@.len() {
                assert(exists|j: int| 0 <= j < "UInt32"@.len() && "Int8"@[j] != "UInt32"@[j]) by {
                    
                }
            }
        }
        assert("UInt16"@ != "UInt32"@) by {
            if "UInt16"@.len() == "UInt32"@.len() {
                assert(exists|j: int| 0 <= j < "UInt32"@.len() && "UInt16"@[j] != "UInt32"@[j]) by {
                    assert("UInt16"@[4] != "UInt32"@[4]);
                }
            }
        }
        assert("Int16"@ != "UInt32"@) by {
            if "Int16"@.len() == "UInt32"@.len() {
                assert(exists|j: int| 0 <= j < "UInt32"@.len() && "Int16"@[j] != "UInt32"@[j]) by {
                    
                }
            }
        }
    }
    lemma_table_row("UInt32"@, seq![ident("u32"@)]);
    assert(builtin_type("Int32"@) == Some(seq![ident("i32"@)])) by {
        reveal_strlit("UInt8");
        reveal_strlit("Int8");
        reveal_strlit("UInt16");
        reveal_strlit("Int16");
        reveal_strlit("UInt32");
        reveal_strlit("Int32");
        assert("UInt8"@ != "Int32"@) by {
            if "UInt8"@.len() == "Int32"@.len() {
                assert(exists|j: int| 0 <= j < "Int32"@.len() && "UInt8"@[j] != "Int32"@[j]) by {
                    assert("UInt8"@[0] != "Int32"@[0]);
                }
            }
        }
        assert("Int8"@ != "Int32"@) by {
            if "Int8"@.len() == "Int32"@.len() {
                assert(exists|j: int| 0 <= j < "Int32"@.len() && "Int8"@[j] != "Int32"@[j]) by {
                    
                }
            }
        }
        assert("UInt16"@ != "Int32"@) by {
            if "UInt16"@.len() == "Int32"@.len() {
                assert(exists|j: int| 0 <= j < "Int32"@.len() && "UInt16"@[j] != "Int32"@[j]) by {
                    
                }
            }
        }
        assert("Int16"@ != "Int32"@) by {
            if "Int16"@.len() == "Int32"@.len() {
                assert(exists|j: int| 0 <= j < "Int32"@.len() && "Int16"@[j] != "Int32"@[j]) by {
                    assert("Int16"@[3] != "Int32"@[3]);
                }
            }
        }
        assert("UInt32"@ != "Int32"@) by {
            if "UInt32"@.len() == "Int32"@.len() {
                assert(exists|j: int| 0 <= j < "Int32"@.len() && "UInt32"@[j] != "Int32"@[j]) by {
                    
                }
            }
        }
    }
    lemma_table_row("Int32"@, seq![ident("i32"@)]);
    assert(builtin_type("UInt64"@) == Some(seq![ident("u64"@)])) by {
        reveal_strlit("UInt8");
        reveal_strlit("Int8");
        reveal_strlit("UInt16");
        reveal_strlit("Int16");
        reveal_strlit("UInt32");
        reveal_strlit("Int32");
        reveal_strlit("UInt64");
        assert("UInt8"@ != "UInt64"@) by {
            if "UInt8"@.len() == "UInt64"@.len() {
                assert(exists|j: int| 0 <= j < "UInt64"@.len() && "UInt8"@[j] != "UInt64"@[j]) by {
                    
                }
            }
        }
        assert("Int8"@ != "UInt64"@) by {
            if "Int8"@.len() == "UInt64"@.len() {
                assert(exists|j: int| 0 <= j < "UInt64"@.len() && "Int8"@[j] != "UInt64"@[j]) by {
                    
                }
            }
        }
        assert("UInt16"@ != "UInt64"@) by {
            if "UInt16"@.len() == "UInt64"@.len() {
                assert(exists|j: int| 0 <= j < "UInt64"@.len() && "UInt16"@[j] != "UInt64"@[j]) by {
                    assert("UInt16"@[4] != "UInt64"@[4]);
                }
            }
        }
        assert("Int16"@ != "UInt64"@) by {
            if "Int16"@.len() == "UInt64"@.len() {
                assert(exists|j: int| 0 <= j < "UInt64"@.len() && "Int16"@[j] != "UInt64"@[j]) by {
                    
                }
            }
        }
        assert("UInt32"@ != "UInt64"@) by {
            if "UInt32"@.len() == "UInt64"@.len() {
                assert(exists|j: int| 0 <= j < "UInt64"@.len() && "UInt32"@[j] != "UInt64"@[j]) by {
                    assert("UInt32"@[4] != "UInt64"@[4]);
                }
            }
        }
        assert("Int32"@ != "UInt64"@) by {
            if "Int32"@.len() == "UInt64"@.len() {
                assert(exists|j: int| 0 <= j < "UInt64"@.len() && "Int32"@[j] != "UInt64"@[j]) by {
                    
                }
            }
        }
    }
    lemma_table_row("UInt64"@, seq![ident("u64"@)]);
    assert(builtin_type("Int64"@) == Some(seq![ident("i64"@)])) by {
        reveal_strlit("UInt8");
        reveal_strlit("Int8");
        reveal_strlit("UInt16");
        reveal_strlit("Int16");
        reveal_strlit("UInt32");
        reveal_strlit("Int32");
        reveal_strlit("UInt64");
        reveal_strlit("Int64");
        assert("UInt8"@ != "Int64"@) by {
            if "UInt8"@.len() == "Int64"@.len() {
                assert(exists|j: int| 0 <= j < "Int64"@.len() && "UInt8"@[j] != "Int64"@[j]) by {
                    assert("UInt8"@[0] != "Int64"@[0]);
                }
            }
        }
        assert("Int8"@ != "Int64"@) by {
            if "Int8"@.len() == "Int64"@.len() {
                assert(exists|j: int| 0 <= j < "Int64"@.len() && "Int8"@[j] != "Int64"@[j]) by {
                    
                }
            }
        }
        assert("UInt16"@ != "Int64"@) by {
            if "UInt16"@.len() == "Int64"@.len() {
                assert(exists|j: int| 0 <= j < "Int64"@.len() && "UInt16"@[j] != "Int64"@[j]) by {
                    
                }
            }
        }
        assert("Int16"@ != "Int64"@) by {
            if "Int16"@.len() == "Int64"@.len() {
                assert(exists|j: int| 0 <= j < "Int64"@.len() && "Int16"@[j] != "Int64"@[j]) by {
                    assert("Int16"@[3] != "Int64"@[3]);
                }
            }
        }
        assert("UInt32"@ != "Int64"@) by {
            if "UInt32"@.len() == "Int64"@.len() {
                assert(exists|j: int| 0 <= j < "Int64"@.len() && "UInt32"@[j] != "Int64"@[j]) by {
                    
                }
            }
        }
        assert("Int32"@ != "Int64"@) by {
            if "Int32"@.len() == "Int64"@.len() {
                assert(exists|j: int| 0 <= j < "Int64"@.len() && "Int32"@[j] != "Int64"@[j]) by {
                    assert("Int32"@[3] != "Int64"@[3]);
                }
            }
        }
        assert("UInt64"@ != "Int64"@) by {
            if "UInt64"@.len() == "Int64"@.len() {
                assert(exists|j: int| 0 <= j < "Int64"@.len() && "UInt64"@[j] != "Int64"@[j]) by {
                    
                }
            }
        }
    }
    lemma_table_row("Int64"@, seq![ident("i64"@)]);
    assert(builtin_type("UInt"@) == Some(seq![ident("usize"@)])) by {
        reveal_strlit("UInt8");
        reveal_strlit("Int8");
        reveal_strlit("UInt16");
        reveal_strlit("Int16");
        reveal_strlit("UInt32");
        reveal_strlit("Int32");
        reveal_strlit("UInt64");
        reveal_strlit("Int64");
        reveal_strlit("UInt");
        assert("UInt8"@ != "UInt"@) by {
            if "UInt8"@.len() == "UInt"@.len() {
                assert(exists|j: int| 0 <= j < "UInt"@.len() && "UInt8"@[j] != "UInt"@[j]) by {
                    
                }
            }
        }
        assert("Int8"@ != "UInt"@) by {
            if "Int8"@.len() == "UInt"@.len() {
                assert(exists|j: int| 0 <= j < "UInt"@.len() && "Int8"@[j] != "UInt"@[j]) by {
                    assert("Int8"@[0] != "UInt"@[0]);
                }
            }
        }
        assert("UInt16"@ != "UInt"@) by {
            if "UInt16"@.len() == "UInt"@.len() {
                assert(exists|j: int| 0 <= j < "UInt"@.len() && "UInt16"@[j] != "UInt"@[j]) by {
                    
                }
            }
        }
        assert("Int16"@ != "UInt"@) by {
            if "Int16"@.len() == "UInt"@.len() {
                assert(exists|j: int| 0 <= j < "UInt"@.len() && "Int16"@[j] != "UInt"@[j]) by {
                    
                }
            }
        }
        assert("UInt32"@ != "UInt"@) by {
            if "UInt32"@.len() == "UInt"@.len() {
                assert(exists|j: int| 0 <= j < "UInt"@.len() && "UInt32"@[j] != "UInt"@[j]) by {
                    
                }
            }
        }
        assert("Int32"@ != "UInt"@) by {
            if "Int32"@.len() == "UInt"@.len() {
                assert(exists|j: int| 0 <= j < "UInt"@.len() && "Int32"@[j] != "UInt"@[j]) by {
                    
                }
            }
        }
        assert("UInt64"@ != "UInt"@) by {
            if "UInt64"@.len() == "UInt"@.len() {
                assert(exists|j: int| 0 <= j < "UInt"@.len() && "UInt64"@[j] != "UInt"@[j]) by {
                    
                }
            }
        }
        assert("Int64"@ != "UInt"@) by {
            if "Int64"@.len() == "UInt"@.len() {
                assert(exists|j: int| 0 <= j < "UInt"@.len() && "Int64"@[j] != "UInt"@[j]) by {
                    
                }
            }
        }
    }
    lemma_table_row("UInt"@, seq![ident("usize"@)]);
    assert(builtin_type("Int"@) == Some(seq![ident("isize"@)])) by {
        reveal_strlit("UInt8");
        reveal_strlit("Int8");
        reveal_strlit("UInt16");
        reveal_strlit("Int16");
        reveal_strlit("UInt32");
        reveal_strlit("Int32");
        reveal_strlit("UInt64");
        reveal_strlit("Int64");
        reveal_strlit("UInt");
        reveal_strlit("Int");
        assert("UInt8"@ != "Int"@) by {
            if "UInt8"@.len() == "Int"@.len() {
                assert(exists|j: int| 0 <= j < "Int"@.len() && "UInt8"@[j] != "Int"@[j]) by {
                    
                }
            }
        }
        assert("Int8"@ != "Int"@) by {
            if "Int8"@.len() == "Int"@.len() {
                assert(exists|j: int| 0 <= j < "Int"@.len() && "Int8"@[j] != "Int"@[j]) by {
                    
                }
            }
        }
        assert("UInt16"@ != "Int"@) by {
            if "UInt16"@.len() == "Int"@.len() {
                assert(exists|j: int| 0 <= j < "Int"@.len() && "UInt16"@[j] != "Int"@[j]) by {
                    
                }
            }
        }
        assert("Int16"@ != "Int"@) by {
            if "Int16"@.len() == "Int"@.len() {
                assert(exists|j: int| 0 <= j < "Int"@.len() && "Int16"@[j] != "Int"@[j]) by {
                    
                }
            }
        }
        assert("UInt32"@ != "Int"@) by {
            if "UInt32"@.len() == "Int"@.len() {
                assert(exists|j: int| 0 <= j < "Int"@.len() && "UInt32"@[j] != "Int"@[j]) by {
                    
                }
            }
        }
        assert("Int32"@ != "Int"@) by {
            if "Int32"@.len() == "Int"@.len() {
                assert(exists|j: int| 0 <= j < "Int"@.len() && "Int32"@[j] != "Int"@[j]) by {
                    
                }
            }
        }
        assert("UInt64"@ != "Int"@) by {
            if "UInt64"@.len() == "Int"@.len() {
                assert(exists|j: int| 0 <= j < "Int"@.len() && "UInt64"@[j] != "Int"@[j]) by {
                    
                }
            }
        }
        assert("Int64"@ != "Int"@) by {
            if "Int64"@.len() == "Int"@.len() {
                assert(exists|j: int| 0 <= j < "Int"@.len() && "Int64"@[j] != "Int"@[j]) by {
                    
                }
            }
        }
        assert("UInt"@ != "Int"@) by {
            if "UInt"@.len() == "Int"@.len() {
                assert(exists|j: int| 0 <= j < "Int"@.len() && "UInt"@[j] != "Int"@[j]) by {
                    
                }
            }
        }
    }
    lemma_table_row("Int"@, seq![ident("isize"@)]);
    assert(builtin_type("Float"@) == Some(seq![ident("f32"@)])) by {
        reveal_strlit("UInt8");
        reveal_strlit("Int8");
        reveal_strlit("UInt16");
        reveal_strlit("Int16");
        reveal_strlit("UInt32");
        reveal_strlit("Int32");
        reveal_strlit("UInt64");
        reveal_strlit("Int64");
        reveal_strlit("UInt");
        reveal_strlit("Int");
        reveal_strlit("Float");
        assert("UInt8"@ != "Float"@) by {
            if "UInt8"@.len() == "Float"@.len() {
                assert(exists|j: int| 0 <= j < "Float"@.len() && "UInt8"@[j] != "Float"@[j]) by {
                    assert("UInt8"@[0] != "Float"@[0]);
                }
            }
        }
        assert("Int8"@ != "Float"@) by {
            if "Int8"@.len() == "Float"@.len() {
                assert(exists|j: int| 0 <= j < "Float"@.len() && "Int8"@[j] != "Float"@[j]) by {
                    
                }
            }
        }
        assert("UInt16"@ != "Float"@) by {
            if "UInt16"@.len() == "Float"@.len() {
                assert(exists|j: int| 0 <= j < "Float"@.len() && "UInt16"@[j] != "Float"@[j]) by {
                    
                }
            }
        }
        assert("Int16"@ != "Float"@) by {
            if "Int16"@.len() == "Float"@.len() {
                assert(exists|j: int| 0 <= j < "Float"@.len() && "Int16"@[j] != "Float"@[j]) by {
                    assert("Int16"@[0] != "Float"@[0]);
                }
            }
        }
        assert("UInt32"@ != "Float"@) by {
            if "UInt32"@.len() == "Float"@.len() {
                assert(exists|j: int| 0 <= j < "Float"@.len() && "UInt32"@[j] != "Float"@[j]) by {
                    
                }
            }
        }
        assert("Int32"@ != "Float"@) by {
            if "Int32"@.len() == "Float"@.len() {
                assert(exists|j: int| 0 <= j < "Float"@.len() && "Int32"@[j] != "Float"@[j]) by {
                    assert("Int32"@[0] != "Float"@[0]);
                }
            }
        }
        assert("UInt64"@ != "Float"@) by {
            if "UInt64"@.len() == "Float"@.len() {
                assert(exists|j: int| 0 <= j < "Float"@.len() && "UInt64"@[j] != "Float"@[j]) by {
                    
                }
            }
        }
        assert("Int64"@ != "Float"@) by {
            if "Int64"@.len() == "Float"@.len() {
                assert(exists|j: int| 0 <= j < "Float"@.len() && "Int64"@[j] != "Float"@[j]) by {
                    assert("Int64"@[0] != "Float"@[0]);
                }
            }
        }
        assert("UInt"@ != "Float"@) by {
            if "UInt"@.len() == "Float"@.len() {
                assert(exists|j: int| 0 <= j < "Float"@.len() && "UInt"@[j] != "Float"@[j]) by {
                    
                }
            }
        }
        assert("Int"@ != "Float"@) by {
            if "Int"@.len() == "Float"@.len() {
                assert(exists|j: int| 0 <= j < "Float"@.len() && "Int"@[j] != "Float"@[j]) by {
                    
                }
            }
        }
    }
    lemma_table_row("Float"@, seq![ident("f32"@)]);
    assert(builtin_type("Double"@) == Some(seq![ident("f64"@)])) by {
        reveal_strlit("UInt8");
        reveal_strlit("Int8");
        reveal_strlit("UInt16");
        reveal_strlit("Int16");
        reveal_strlit("UInt32");
        reveal_strlit("Int32");
        reveal_strlit("UInt64");
        reveal_strlit("Int64");
        reveal_strlit("UInt");
        reveal_strlit("Int");
        reveal_strlit("Float");
        reveal_strlit("Double");
        assert("UInt8"@ != "Double"@) by {
            if "UInt8"@.len() == "Double"@.len() {
                assert(exists|j: int| 0 <= j < "Double"@.len() && "UInt8"@[j] != "Double"@[j]) by {
                    
                }
            }
        }
        assert("Int8"@ != "Double"@) by {
            if "Int8"@.len() == "Double"@.len() {
                assert(exists|j: int| 0 <= j < "Double"@.len() && "Int8"@[j] != "Double"@[j]) by {
                    
                }
            }
        }
        assert("UInt16"@ != "Double"@) by {
            if "UInt16"@.len() == "Double"@.len() {
                assert(exists|j: int| 0 <= j < "Double"@.len() && "UInt16"@[j] != "Double"@[j]) by {
                    assert("UInt16"@[0] != "Double"@[0]);
                }
            }
        }
        assert("Int16"@ != "Double"@) by {
            if "Int16"@.len() == "Double"@.len() {
                assert(exists|j: int| 0 <= j < "Double"@.len() && "Int16"@[j] != "Double"@[j]) by {
                    
                }
            }
        }
        assert("UInt32"@ != "Double"@) by {
            if "UInt32"@.len() == "Double"@.len() {
                assert(exists|j: int| 0 <= j < "Double"@.len() && "UInt32"@[j] != "Double"@[j]) by {
                    assert("UInt32"@[0] != "Double"@[0]);
                }
            }
        }
        assert("Int32"@ != "Double"@) by {
            if "Int32"@.len() == "Double"@.len() {
                assert(exists|j: int| 0 <= j < "Double"@.len() && "Int32"@[j] != "Double"@[j]) by {
                    
                }
            }
        }
        assert("UInt64"@ != "Double"@) by {
            if "UInt64"@.len() == "Double"@.len() {
                assert(exists|j: int| 0 <= j < "Double"@.len() && "UInt64"@[j] != "Double"@[j]) by {
                    assert("UInt64"@[0] != "Double"@[0]);
                }
            }
        }
        assert("Int64"@ != "Double"@) by {
            if "Int64"@.len() == "Double"@.len() {
                assert(exists|j: int| 0 <= j < "Double"@.len() && "Int64"@[j] != "Double"@[j]) by {
                    
                }
            }
        }
        assert("UInt"@ != "Double"@) by {
            if "UInt"@.len() == "Double"@.len() {
                assert(exists|j: int| 0 <= j < "Double"@.len() && "UInt"@[j] != "Double"@[j]) by {
                    
                }
            }
        }
        assert("Int"@ != "Double"@) by {
            if "Int"@.len() == "Double"@.len() {
                assert(exists|j: int| 0 <= j < "Double"@.len() && "Int"@[j] != "Double"@[j]) by {
                    
                }
            }
        }
        assert("Float"@ != "Double"@) by {
            if "Float"@.len() == "Double"@.len() {
                assert(exists|j: int| 0 <= j < "Double"@.len() && "Float"@[j] != "Double"@[j]) by {
                    
                }
            }
        }
    }
    lemma_table_row("Double"@, seq![ident("f64"@)]);
    assert(builtin_type("Bool"@) == Some(seq![ident("bool"@)])) by {
        reveal_strlit("UInt8");
        reveal_strlit("Int8");
        reveal_strlit("UInt16");
        reveal_strlit("Int16");
        reveal_strlit("UInt32");
        reveal_strlit("Int32");
        reveal_strlit("UInt64");
        reveal_strlit("Int64");
        reveal_strlit("UInt");
        reveal_strlit("Int");
        reveal_strlit("Float");
        reveal_strlit("Double");
        reveal_strlit("Bool");
        assert("UInt8"@ != "Bool"@) by {
            if "UInt8"@.len() == "Bool"@.len() {
                assert(exists|j: int| 0 <= j < "Bool"@.len() && "UInt8"@[j] != "Bool"@[j]) by {
                    
                }
            }
        }
        assert("Int8"@ != "Bool"@) by {
            if "Int8"@.len() == "Bool"@.len() {
                assert(exists|j: int| 0 <= j < "Bool"@.len() && "Int8"@[j] != "Bool"@[j]) by {
                    assert("Int8"@[0] != "Bool"@[0]);
                }
            }
        }
        assert("UInt16"@ != "Bool"@) by {
            if "UInt16"@.len() == "Bool"@.len() {
                assert(exists|j: int| 0 <= j < "Bool"@.len() && "UInt16"@[j] != "Bool"@[j]) by {
                    
                }
            }
        }
        assert("Int16"@ != "Bool"@) by {
            if "Int16"@.len() == "Bool"@.len() {
                assert(exists|j: int| 0 <= j < "Bool"@.len() && "Int16"@[j] != "Bool"@[j]) by {
                    
                }
            }
        }
        assert("UInt32"@ != "Bool"@) by {
            if "UInt32"@.len() == "Bool"@.len() {
                assert(exists|j: int| 0 <= j < "Bool"@.len() && "UInt32"@[j] != "Bool"@[j]) by {
                    
                }
            }
        }
        assert("Int32"@ != "Bool"@) by {
            if "Int32"@.len() == "Bool"@.len() {
                assert(exists|j: int| 0 <= j < "Bool"@.len() && "Int32"@[j] != "Bool"@[j]) by {
                    
                }
            }
        }
        assert("UInt64"@ != "Bool"@) by {
            if "UInt64"@.len() == "Bool"@.len() {
                assert(exists|j: int| 0 <= j < "Bool"@.len() && "UInt64"@[j] != "Bool"@[j]) by {
                    
                }
            }
        }
        assert("Int64"@ != "Bool"@) by {
            if "Int64"@.len() == "Bool"@.len() {
                assert(exists|j: int| 0 <= j < "Bool"@.len() && "Int64"@[j] != "Bool"@[j]) by {
                    
                }
            }
        }
        assert("UInt"@ != "Bool"@) by {
            if "UInt"@.len() == "Bool"@.len() {
                assert(exists|j: int| 0 <= j < "Bool"@.len() && "UInt"@[j] != "Bool"@[j]) by {
                    assert("UInt"@[0] != "Bool"@[0]);
                }
            }
        }
        assert("Int"@ != "Bool"@) by {
            if "Int"@.len() == "Bool"@.len() {
                assert(exists|j: int| 0 <= j < "Bool"@.len() && "Int"@[j] != "Bool"@[j]) by {
                    
                }
            }
        }
        assert("Float"@ != "Bool"@) by {
            if "Float"@.len() == "Bool"@.len() {
                assert(exists|j: int| 0 <= j < "Bool"@.len() && "Float"@[j] != "Bool"@[j]) by {
                    
                }
            }
        }
        assert("Double"@ != "Bool"@) by {
            if "Double"@.len() == "Bool"@.len() {
                assert(exists|j: int| 0 <= j < "Bool"@.len() && "Double"@[j] != "Bool"@[j]) by {
                    
                }
            }
        }
    }
    lemma_table_row("Bool"@, seq![ident("bool"@)]);
    assert(builtin_type("Void"@) == Some(seq![TokV::Group(Delimiter::Parenthesis, Seq::empty())])) by {
        reveal_strlit("UInt8");
        reveal_strlit("Int8");
        reveal_strlit("UInt16");
        reveal_strlit("Int16");
        reveal_strlit("UInt32");
        reveal_strlit("Int32");
        reveal_strlit("UInt64");
        reveal_strlit("Int64");
        reveal_strlit("UInt");
        reveal_strlit("Int");
        reveal_strlit("Float");
        reveal_strlit("Double");
        reveal_strlit("Bool");
        reveal_strlit("Void");
        assert("UInt8"@ != "Void"@) by {
            if "UInt8"@.len() == "Void"@.len() {
                assert(exists|j: int| 0 <= j < "Void"@.len() && "UInt8"@[j] != "Void"@[j]) by {
                    
                }
            }
        }
        assert("Int8"@ != "Void"@) by {
            if "Int8"@.len() == "Void"@.len() {
                assert(exists|j: int| 0 <= j < "Void"@.len() && "Int8"@[j] != "Void"@[j]) by {
                    assert("Int8"@[0] != "Void"@[0]);
                }
            }
        }
        assert("UInt16"@ != "Void"@) by {
            if "UInt16"@.len() == "Void"@.len() {
                assert(exists|j: int| 0 <= j < "Void"@.len() && "UInt16"@[j] != "Void"@[j]) by {
                    
                }
            }
        }
        assert("Int16"@ != "Void"@) by {
            if "Int16"@.len() == "Void"@.len() {
                assert(exists|j: int| 0 <= j < "Void"@.len() && "Int16"@[j] != "Void"@[j]) by {
                    
                }
            }
        }
        assert("UInt32"@ != "Void"@) by {
            if "UInt32"@.len() == "Void"@.len() {
                assert(exists|j: int| 0 <= j < "Void"@.len() && "UInt32"@[j] != "Void"@[j]) by {
                    
                }
            }
        }
        assert("Int32"@ != "Void"@) by {
            if "Int32"@.len() == "Void"@.len() {
                assert(exists|j: int| 0 <= j < "Void"@.len() && "Int32"@[j] != "Void"@[j]) by {
                    
                }
            }
        }
        assert("UInt64"@ != "Void"@) by {
            if "UInt64"@.len() == "Void"@.len() {
                assert(exists|j: int| 0 <= j < "Void"@.len() && "UInt64"@[j] != "Void"@[j]) by {
                    
                }
            }
        }
        assert("Int64"@ != "Void"@) by {
            if "Int64"@.len() == "Void"@.len() {
                assert(exists|j: int| 0 <= j < "Void"@.len() && "Int64"@[j] != "Void"@[j]) by {
                    
                }
            }
        }
        assert("UInt"@ != "Void"@) by {
            if "UInt"@.len() == "Void"@.len() {
                assert(exists|j: int| 0 <= j < "Void"@.len() && "UInt"@[j] != "Void"@[j]) by {
                    assert("UInt"@[0] != "Void"@[0]);
                }
            }
        }
        assert("Int"@ != "Void"@) by {
            if "Int"@.len() == "Void"@.len() {
                assert(exists|j: int| 0 <= j < "Void"@.len() && "Int"@[j] != "Void"@[j]) by {
                    
                }
            }
        }
        assert("Float"@ != "Void"@) by {
            if "Float"@.len() == "Void"@.len() {
                assert(exists|j: int| 0 <= j < "Void"@.len() && "Float"@[j] != "Void"@[j]) by {
                    
                }
            }
        }
        assert("Double"@ != "Void"@) by {
            if "Double"@.len() == "Void"@.len() {
                assert(exists|j: int| 0 <= j < "Void"@.len() && "Double"@[j] != "Void"@[j]) by {
                    
                }
            }
        }
        assert("Bool"@ != "Void"@) by {
            if "Bool"@.len() == "Void"@.len() {
                assert(exists|j: int| 0 <= j < "Void"@.len() && "Bool"@[j] != "Void"@[j]) by {
                    assert("Bool"@[0] != "Void"@[0]);
                }
            }
        }
    }
    lemma_table_row("Void"@, seq![TokV::Group(Delimiter::Parenthesis, Seq::empty())]);
    assert(builtin_type("RustString"@) == Some(seq![ident("String"@)])) by {
        reveal_strlit("UInt8");
        reveal_strlit("Int8");
        reveal_strlit("UInt16");
        reveal_strlit("Int16");
        reveal_strlit("UInt32");
        reveal_strlit("Int32");
        reveal_strlit("UInt64");
        reveal_strlit("Int64");
        reveal_strlit("UInt");
        reveal_strlit("Int");
        reveal_strlit("Float");
        reveal_strlit("Double");
        reveal_strlit("Bool");
        reveal_strlit("Void");
        reveal_strlit("RustString");
        assert("UInt8"@ != "RustString"@) by {
            if "UInt8"@.len() == "RustString"@.len() {
                assert(exists|j: int| 0 <= j < "RustString"@.len() && "UInt8"@[j] != "RustString"@[j]) by {
                    
                }
            }
        }
        assert("Int8"@ != "RustString"@) by {
            if "Int8"@.len() == "RustString"@.len() {
                assert(exists|j: int| 0 <= j < "RustString"@.len() && "Int8"@[j] != "RustString"@[j]) by {
                    
                }
            }
        }
        assert("UInt16"@ != "RustString"@) by {
            if "UInt16"@.len() == "RustString"@.len() {
                assert(exists|j: int| 0 <= j < "RustString"@.len() && "UInt16"@[j] != "RustString"@[j]) by {
                    
                }
            }
        }
        assert("Int16"@ != "RustString"@) by {
            if "Int16"@.len() == "RustString"@.len() {
                assert(exists|j: int| 0 <= j < "RustString"@.len() && "Int16"@[j] != "RustString"@[j]) by {
                    
                }
            }
        }
        assert("UInt32"@ != "RustString"@) by {
            if "UInt32"@.len() == "RustString"@.len() {
                assert(exists|j: int| 0 <= j < "RustString"@.len() && "UInt32"@[j] != "RustString"@[j]) by {
                    
                }
            }
        }
        assert("Int32"@ != "RustString"@) by {
            if "Int32"@.len() == "RustString"@.len() {
                assert(exists|j: int| 0 <= j < "RustString"@.len() && "Int32"@[j] != "RustString"@[j]) by {
                    
                }
            }
        }
        assert("UInt64"@ != "RustString"@) by {
            if "UInt64"@.len() == "RustString"@.len() {
                assert(exists|j: int| 0 <= j < "RustString"@.len() && "UInt64"@[j] != "RustString"@[j]) by {
                    
                }
            }
        }
        assert("Int64"@ != "RustString"@) by {
            if "Int64"@.len() == "RustString"@.len() {
                assert(exists|j: int| 0 <= j < "RustString"@.len() && "Int64"@[j] != "RustString"@[j]) by {
                    
                }
            }
        }
        assert("UInt"@ != "RustString"@) by {
            if "UInt"@.len() == "RustString"@.len() {
                assert(exists|j: int| 0 <= j < "RustString"@.len() && "UInt"@[j] != "RustString"@[j]) by {
                    
                }
            }
        }
        assert("Int"@ != "RustString"@) by {
            if "Int"@.len() == "RustString"@.len() {
                assert(exists|j: int| 0 <= j < "RustString"@.len() && "Int"@[j] != "RustString"@[j]) by {
                    
                }
            }
        }
        assert("Float"@ != "RustString"@) by {
            if "Float"@.len() == "RustString"@.len() {
                assert(exists|j: int| 0 <= j < "RustString"@.len() && "Float"@[j] != "RustString"@[j]) by {
                    
                }
            }
        }
        assert("Double"@ != "RustString"@) by {
            if "Double"@.len() == "RustString"@.len() {
                assert(exists|j: int| 0 <= j < "RustString"@.len() && "Double"@[j] != "RustString"@[j]) by {
                    
                }
            }
        }
        assert("Bool"@ != "RustString"@) by {
            if "Bool"@.len() == "RustString"@.len() {
                assert(exists|j: int| 0 <= j < "RustString"@.len() && "Bool"@[j] != "RustString"@[j]) by {
                    
                }
            }
        }
        assert("Void"@ != "RustString"@) by {
            if "Void"@.len() == "RustString"@.len() {
                assert(exists|j: int| 0 <= j < "RustString"@.len() && "Void"@[j] != "RustString"@[j]) by {
                    
                }
            }
        }
    }
    lemma_table_row("RustString"@, seq![ident("String"@)]);
    assert(builtin_type("RustStringRef"@) == Some(seq![punct('&'), ident("String"@)])) by {
        reveal_strlit("UInt8");
        reveal_strlit("Int8");
        reveal_strlit("UInt16");
        reveal_strlit("Int16");
        reveal_strlit("UInt32");
        reveal_strlit("Int32");
        reveal_strlit("UInt64");
        reveal_strlit("Int64");
        reveal_strlit("UInt");
        reveal_strlit("Int");
        reveal_strlit("Float");
        reveal_strlit("Double");
        reveal_strlit("Bool");
        reveal_strlit("Void");
        reveal_strlit("RustString");
        reveal_strlit("RustStringRef");
        assert("UInt8"@ != "RustStringRef"@) by {
            if "UInt8"@.len() == "RustStringRef"@.len() {
                assert(exists|j: int| 0 <= j < "RustStringRef"@.len() && "UInt8"@[j] != "RustStringRef"@[j]) by {
                    
                }
            }
        }
        assert("Int8"@ != "RustStringRef"@) by {
            if "Int8"@.len() == "RustStringRef"@.len() {
                assert(exists|j: int| 0 <= j < "RustStringRef"@.len() && "Int8"@[j] != "RustStringRef"@[j]) by {
                    
                }
            }
        }
        assert("UInt16"@ != "RustStringRef"@) by {
            if "UInt16"@.len() == "RustStringRef"@.len() {
                assert(exists|j: int| 0 <= j < "RustStringRef"@.len() && "UInt16"@[j] != "RustStringRef"@[j]) by {
                    
                }
            }
        }
        assert("Int16"@ != "RustStringRef"@) by {
            if "Int16"@.len() == "RustStringRef"@.len() {
                assert(exists|j: int| 0 <= j < "RustStringRef"@.len() && "Int16"@[j] != "RustStringRef"@[j]) by {
                    
                }
            }
        }
        assert("UInt32"@ != "RustStringRef"@) by {
            if "UInt32"@.len() == "RustStringRef"@.len() {
                assert(exists|j: int| 0 <= j < "RustStringRef"@.len() && "UInt32"@[j] != "RustStringRef"@[j]) by {
                    
                }
            }
        }
        assert("Int32"@ != "RustStringRef"@) by {
            if "Int32"@.len() == "RustStringRef"@.len() {
                assert(exists|j: int| 0 <= j < "RustStringRef"@.len() && "Int32"@[j] != "RustStringRef"@[j]) by {
                    
                }
            }
        }
        assert("UInt64"@ != "RustStringRef"@) by {
            if "UInt64"@.len() == "RustStringRef"@.len() {
                assert(exists|j: int| 0 <= j < "RustStringRef"@.len() && "UInt64"@[j] != "RustStringRef"@[j]) by {
                    
                }
            }
        }
        assert("Int64"@ != "RustStringRef"@) by {
            if "Int64"@.len() == "RustStringRef"@.len() {
                assert(exists|j: int| 0 <= j < "RustStringRef"@.len() && "Int64"@[j] != "RustStringRef"@[j]) by {
                    
                }
            }
        }
        assert("UInt"@ != "RustStringRef"@) by {
            if "UInt"@.len() == "RustStringRef"@.len() {
                assert(exists|j: int| 0 <= j < "RustStringRef"@.len() && "UInt"@[j] != "RustStringRef"@[j]) by {
                    
                }
            }
        }
        assert("Int"@ != "RustStringRef"@) by {
            if "Int"@.len() == "RustStringRef"@.len() {
                assert(exists|j: int| 0 <= j < "RustStringRef"@.len() && "Int"@[j] != "RustStringRef"@[j]) by {
                    
                }
            }
        }
        assert("Float"@ != "RustStringRef"@) by {
            if "Float"@.len() == "RustStringRef"@.len() {
                assert(exists|j: int| 0 <= j < "RustStringRef"@.len() && "Float"@[j] != "RustStringRef"@[j]) by {
                    
                }
            }
        }
        assert("Double"@ != "RustStringRef"@) by {
            if "Double"@.len() == "RustStringRef"@.len() {
                assert(exists|j: int| 0 <= j < "RustStringRef"@.len() && "Double"@[j] != "RustStringRef"@[j]) by {
                    
                }
            }
        }
        assert("Bool"@ != "RustStringRef"@) by {
            if "Bool"@.len() == "RustStringRef"@.len() {
                assert(exists|j: int| 0 <= j < "RustStringRef"@.len() && "Bool"@[j] != "RustStringRef"@[j]) by {
                    
                }
            }
        }
        assert("Void"@ != "RustStringRef"@) by {
            if "Void"@.len() == "RustStringRef"@.len() {
                assert(exists|j: int| 0 <= j < "RustStringRef"@.len() && "Void"@[j] != "RustStringRef"@[j]) by {
                    
                }
            }
        }
        assert("RustString"@ != "RustStringRef"@) by {
            if "RustString"@.len() == "RustStringRef"@.len() {
                assert(exists|j: int| 0 <= j < "RustStringRef"@.len() && "RustString"@[j] != "RustStringRef"@[j]) by {
                    
                }
            }
        }
    }
    lemma_table_row("RustStringRef"@, seq![punct('&'), ident("String"@)]);
    assert(builtin_type("RustStringRefMut"@) == Some(seq![punct('&'), ident("mut"@), ident("String"@)])) by {
        reveal_strlit("UInt8");
        reveal_strlit("Int8");
        reveal_strlit("UInt16");
        reveal_strlit("Int16");
        reveal_strlit("UInt32");
        reveal_strlit("Int32");
        reveal_strlit("UInt64");
        reveal_strlit("Int64");
        reveal_strlit("UInt");
        reveal_strlit("Int");
        reveal_strlit("Float");
        reveal_strlit("Double");
        reveal_strlit("Bool");
        reveal_strlit("Void");
        reveal_strlit("RustString");
        reveal_strlit("RustStringRef");
        reveal_strlit("RustStringRefMut");
        assert("UInt8"@ != "RustStringRefMut"@) by {
            if "UInt8"@.len() == "RustStringRefMut"@.len() {
                assert(exists|j: int| 0 <= j < "RustStringRefMut"@.len() && "UInt8"@[j] != "RustStringRefMut"@[j]) by {
                    
                }
            }
        }
        assert("Int8"@ != "RustStringRefMut"@) by {
            if "Int8"@.len() == "RustStringRefMut"@.len() {
                assert(exists|j: int| 0 <= j < "RustStringRefMut"@.len() && "Int8"@[j] != "RustStringRefMut"@[j]) by {
                    
                }
            }
        }
        assert("UInt16"@ != "RustStringRefMut"@) by {
            if "UInt16"@.len() == "RustStringRefMut"@.len() {
                assert(exists|j: int| 0 <= j < "RustStringRefMut"@.len() && "UInt16"@[j] != "RustStringRefMut"@[j]) by {
                    
                }
            }
        }
        assert("Int16"@ != "RustStringRefMut"@) by {
            if "Int16"@.len() == "RustStringRefMut"@.len() {
                assert(exists|j: int| 0 <= j < "RustStringRefMut"@.len() && "Int16"@[j] != "RustStringRefMut"@[j]) by {
                    
                }
            }
        }
        assert("UInt32"@ != "RustStringRefMut"@) by {
            if "UInt32"@.len() == "RustStringRefMut"@.len() {
                assert(exists|j: int| 0 <= j < "RustStringRefMut"@.len() && "UInt32"@[j] != "RustStringRefMut"@[j]) by {
                    
                }
            }
        }
        assert("Int32"@ != "RustStringRefMut"@) by {
            if "Int32"@.len() == "RustStringRefMut"@.len() {
                assert(exists|j: int| 0 <= j < "RustStringRefMut"@.len() && "Int32"@[j] != "RustStringRefMut"@[j]) by {
                    
                }
            }
        }
        assert("UInt64"@ != "RustStringRefMut"@) by {
            if "UInt64"@.len() == "RustStringRefMut"@.len() {
                assert(exists|j: int| 0 <= j < "RustStringRefMut"@.len() && "UInt64"@[j] != "RustStringRefMut"@[j]) by {
                    
                }
            }
        }
        assert("Int64"@ != "RustStringRefMut"@) by {
            if "Int64"@.len() == "RustStringRefMut"@.len() {
                assert(exists|j: int| 0 <= j < "RustStringRefMut"@.len() && "Int64"@[j] != "RustStringRefMut"@[j]) by {
                    
                }
            }
        }
        assert("UInt"@ != "RustStringRefMut"@) by {
            if "UInt"@.len() == "RustStringRefMut"@.len() {
                assert(exists|j: int| 0 <= j < "RustStringRefMut"@.len() && "UInt"@[j] != "RustStringRefMut"@[j]) by {
                    
                }
            }
        }
        assert("Int"@ != "RustStringRefMut"@) by {
            if "Int"@.len() == "RustStringRefMut"@.len() {
                assert(exists|j: int| 0 <= j < "RustStringRefMut"@.len() && "Int"@[j] != "RustStringRefMut"@[j]) by {
                    
                }
            }
        }
        assert("Float"@ != "RustStringRefMut"@) by {
            if "Float"@.len() == "RustStringRefMut"@.len() {
                assert(exists|j: int| 0 <= j < "RustStringRefMut"@.len() && "Float"@[j] != "RustStringRefMut"@[j]) by {
                    
                }
            }
        }
        assert("Double"@ != "RustStringRefMut"@) by {
            if "Double"@.len() == "RustStringRefMut"@.len() {
                assert(exists|j: int| 0 <= j < "RustStringRefMut"@.len() && "Double"@[j] != "RustStringRefMut"@[j]) by {
                    
                }
            }
        }
        assert("Bool"@ != "RustStringRefMut"@) by {
            if "Bool"@.len() == "RustStringRefMut"@.len() {
                assert(exists|j: int| 0 <= j < "RustStringRefMut"@.len() && "Bool"@[j] != "RustStringRefMut"@[j]) by {
                    
                }
            }
        }
        assert("Void"@ != "RustStringRefMut"@) by {
            if "Void"@.len() == "RustStringRefMut"@.len() {
                assert(exists|j: int| 0 <= j < "RustStringRefMut"@.len() && "Void"@[j] != "RustStringRefMut"@[j]) by {
                    
                }
            }
        }
        assert("RustString"@ != "RustStringRefMut"@) by {
            if "RustString"@.len() == "RustStringRefMut"@.len() {
                assert(exists|j: int| 0 <= j < "RustStringRefMut"@.len() && "RustString"@[j] != "RustStringRefMut"@[j]) by {
                    
                }
            }
        }
        assert("RustStringRef"@ != "RustStringRefMut"@) by {
            if "RustStringRef"@.len() == "RustStringRefMut"@.len() {
                assert(exists|j: int| 0 <= j < "RustStringRefMut"@.len() && "RustStringRef"@[j] != "RustStringRefMut"@[j]) by {
                    
                }
            }
        }
    }
    lemma_table_row("RustStringRefMut"@, seq![punct('&'), ident("mut"@), ident("String"@)]);
    assert(builtin_type("RustStr"@) == Some(seq![punct('&'), ident("str"@)])) by {
        reveal_strlit("UInt8");
        reveal_strlit("Int8");
        reveal_strlit("UInt16");
        reveal_strlit("Int16");
        reveal_strlit("UInt32");
        reveal_strlit("Int32");
        reveal_strlit("UInt64");
        reveal_strlit("Int64");
        reveal_strlit("UInt");
        reveal_strlit("Int");
        reveal_strlit("Float");
        reveal_strlit("Double");
        reveal_strlit("Bool");
        reveal_strlit("Void");
        reveal_strlit("RustString");
        reveal_strlit("RustStringRef");
        reveal_strlit("RustStringRefMut");
        reveal_strlit("RustStr");
        assert("UInt8"@ != "RustStr"@) by {
            if "UInt8"@.len() == "RustStr"@.len() {
                assert(exists|j: int| 0 <= j < "RustStr"@.len() && "UInt8"@[j] != "RustStr"@[j]) by {
                    
                }
            }
        }
        assert("Int8"@ != "RustStr"@) by {
            if "Int8"@.len() == "RustStr"@.len() {
                assert(exists|j: int| 0 <= j < "RustStr"@.len() && "Int8"@[j] != "RustStr"@[j]) by {
                    
                }
            }
        }
        assert("UInt16"@ != "RustStr"@) by {
            if "UInt16"@.len() == "RustStr"@.len() {
                assert(exists|j: int| 0 <= j < "RustStr"@.len() && "UInt16"@[j] != "RustStr"@[j]) by {
                    
                }
            }
        }
        assert("Int16"@ != "RustStr"@) by {
            if "Int16"@.len() == "RustStr"@.len() {
                assert(exists|j: int| 0 <= j < "RustStr"@.len() && "Int16"@[j] != "RustStr"@[j]) by {
                    
                }
            }
        }
        assert("UInt32"@ != "RustStr"@) by {
            if "UInt32"@.len() == "RustStr"@.len() {
                assert(exists|j: int| 0 <= j < "RustStr"@.len() && "UInt32"@[j] != "RustStr"@[j]) by {
                    
                }
            }
        }
        assert("Int32"@ != "RustStr"@) by {
            if "Int32"@.len() == "RustStr"@.len() {
                assert(exists|j: int| 0 <= j < "RustStr"@.len() && "Int32"@[j] != "RustStr"@[j]) by {
                    
                }
            }
        }
        assert("UInt64"@ != "RustStr"@) by {
            if "UInt64"@.len() == "RustStr"@.len() {
                assert(exists|j: int| 0 <= j < "RustStr"@.len() && "UInt64"@[j] != "RustStr"@[j]) by {
                    
                }
            }
        }
        assert("Int64"@ != "RustStr"@) by {
            if "Int64"@.len() == "RustStr"@.len() {
                assert(exists|j: int| 0 <= j < "RustStr"@.len() && "Int64"@[j] != "RustStr"@[j]) by {
                    
                }
            }
        }
        assert("UInt"@ != "RustStr"@) by {
            if "UInt"@.len() == "RustStr"@.len() {
                assert(exists|j: int| 0 <= j < "RustStr"@.len() && "UInt"@[j] != "RustStr"@[j]) by {
                    
                }
            }
        }
        assert("Int"@ != "RustStr"@) by {
            if "Int"@.len() == "RustStr"@.len() {
                assert(exists|j: int| 0 <= j < "RustStr"@.len() && "Int"@[j] != "RustStr"@[j]) by {
                    
                }
            }
        }
        assert("Float"@ != "RustStr"@) by {
            if "Float"@.len() == "RustStr"@.len() {
                assert(exists|j: int| 0 <= j < "RustStr"@.len() && "Float"@[j] != "RustStr"@[j]) by {
                    
                }
            }
        }
        assert("Double"@ != "RustStr"@) by {
            if "Double"@.len() == "RustStr"@.len() {
                assert(exists|j: int| 0 <= j < "RustStr"@.len() && "Double"@[j] != "RustStr"@[j]) by {
                    
                }
            }
        }
        assert("Bool"@ != "RustStr"@) by {
            if "Bool"@.len() == "RustStr"@.len() {
                assert(exists|j: int| 0 <= j < "RustStr"@.len() && "Bool"@[j] != "RustStr"@[j]) by {
                    
                }
            }
        }
        assert("Void"@ != "RustStr"@) by {
            if "Void"@.len() == "RustStr"@.len() {
                assert(exists|j: int| 0 <= j < "RustStr"@.len() && "Void"@[j] != "RustStr"@[j]) by {
                    
                }
            }
        }
        assert("RustString"@ != "RustStr"@) by {
            if "RustString"@.len() == "RustStr"@.len() {
                assert(exists|j: int| 0 <= j < "RustStr"@.len() && "RustString"@[j] != "RustStr"@[j]) by {
                    
                }
            }
        }
        assert("RustStringRef"@ != "RustStr"@) by {
            if "RustStringRef"@.len() == "RustStr"@.len() {
                assert(exists|j: int| 0 <= j < "RustStr"@.len() && "RustStringRef"@[j] != "RustStr"@[j]) by {
                    
                }
            }
        }
        assert("RustStringRefMut"@ != "RustStr"@) by {
            if "RustStringRefMut"@.len() == "RustStr"@.len() {
                assert(exists|j: int| 0 <= j < "RustStr"@.len() && "RustStringRefMut"@[j] != "RustStr"@[j]) by {
                    
                }
            }
        }
    }
    lemma_table_row("RustStr"@, seq![punct('&'), ident("str"@)]);
    assert(builtin_type("UnsafeRawPointer"@) == Some(seq![punct('*'), ident("const"@), ident("std"@), TokV::Punct(':', true), punct(':'), ident("ffi"@), TokV::Punct(':', true), punct(':'), ident("c_void"@)])) by {
        reveal_strlit("UInt8");
        reveal_strlit("Int8");
        reveal_strlit("UInt16");
        reveal_strlit("Int16");
        reveal_strlit("UInt32");
        reveal_strlit("Int32");
        reveal_strlit("UInt64");
        reveal_strlit("Int64");
        reveal_strlit("UInt");
        reveal_strlit("Int");
        reveal_strlit("Float");
        reveal_strlit("Double");
        reveal_strlit("Bool");
        reveal_strlit("Void");
        reveal_strlit("RustString");
        reveal_strlit("RustStringRef");
        reveal_strlit("RustStringRefMut");
        reveal_strlit("RustStr");
        reveal_strlit("UnsafeRawPointer");
        assert("UInt8"@ != "UnsafeRawPointer"@) by {
            if "UInt8"@.len() == "UnsafeRawPointer"@.len() {
                assert(exists|j: int| 0 <= j < "UnsafeRawPointer"@.len() && "UInt8"@[j] != "UnsafeRawPointer"@[j]) by {
                    
                }
            }
        }
        assert("Int8"@ != "UnsafeRawPointer"@) by {
            if "Int8"@.len() == "UnsafeRawPointer"@.len() {
                assert(exists|j: int| 0 <= j < "UnsafeRawPointer"@.len() && "Int8"@[j] != "UnsafeRawPointer"@[j]) by {
                    
                }
            }
        }
        assert("UInt16"@ != "UnsafeRawPointer"@) by {
            if "UInt16"@.len() == "UnsafeRawPointer"@.len() {
                assert(exists|j: int| 0 <= j < "UnsafeRawPointer"@.len() && "UInt16"@[j] != "UnsafeRawPointer"@[j]) by {
                    
                }
            }
        }
        assert("Int16"@ != "UnsafeRawPointer"@) by {
            if "Int16"@.len() == "UnsafeRawPointer"@.len() {
                assert(exists|j: int| 0 <= j < "UnsafeRawPointer"@.len() && "Int16"@[j] != "UnsafeRawPointer"@[j]) by {
                    
                }
            }
        }
        assert("UInt32"@ != "UnsafeRawPointer"@) by {
            if "UInt32"@.len() == "UnsafeRawPointer"@.len() {
                assert(exists|j: int| 0 <= j < "UnsafeRawPointer"@.len() && "UInt32"@[j] != "UnsafeRawPointer"@[j]) by {
                    
                }
            }
        }
        assert("Int32"@ != "UnsafeRawPointer"@) by {
            if "Int32"@.len() == "UnsafeRawPointer"@.len() {
                assert(exists|j: int| 0 <= j < "UnsafeRawPointer"@.len() && "Int32"@[j] != "UnsafeRawPointer"@[j]) by {
                    
                }
            }
        }
        assert("UInt64"@ != "UnsafeRawPointer"@) by {
            if "UInt64"@.len() == "UnsafeRawPointer"@.len() {
                assert(exists|j: int| 0 <= j < "UnsafeRawPointer"@.len() && "UInt64"@[j] != "UnsafeRawPointer"@[j]) by {
                    
                }
            }
        }
        assert("Int64"@ != "UnsafeRawPointer"@) by {
            if "Int64"@.len() == "UnsafeRawPointer"@.len() {
                assert(exists|j: int| 0 <= j < "UnsafeRawPointer"@.len() && "Int64"@[j] != "UnsafeRawPointer"@[j]) by {
                    
                }
            }
        }
        assert("UInt"@ != "UnsafeRawPointer"@) by {
            if "UInt"@.len() == "UnsafeRawPointer"@.len() {
                assert(exists|j: int| 0 <= j < "UnsafeRawPointer"@.len() && "UInt"@[j] != "UnsafeRawPointer"@[j]) by {
                    
                }
            }
        }
        assert("Int"@ != "UnsafeRawPointer"@) by {
            if "Int"@.len() == "UnsafeRawPointer"@.len() {
                assert(exists|j: int| 0 <= j < "UnsafeRawPointer"@.len() && "Int"@[j] != "UnsafeRawPointer"@[j]) by {
                    
                }
            }
        }
        assert("Float"@ != "UnsafeRawPointer"@) by {
            if "Float"@.len() == "UnsafeRawPointer"@.len() {
                assert(exists|j: int| 0 <= j < "UnsafeRawPointer"@.len() && "Float"@[j] != "UnsafeRawPointer"@[j]) by {
                    
                }
            }
        }
        assert("Double"@ != "UnsafeRawPointer"@) by {
            if "Double"@.len() == "UnsafeRawPointer"@.len() {
                assert(exists|j: int| 0 <= j < "UnsafeRawPointer"@.len() && "Double"@[j] != "UnsafeRawPointer"@[j]) by {
                    
                }
            }
        }
        assert("Bool"@ != "UnsafeRawPointer"@) by {
            if "Bool"@.len() == "UnsafeRawPointer"@.len() {
                assert(exists|j: int| 0 <= j < "UnsafeRawPointer"@.len() && "Bool"@[j] != "UnsafeRawPointer"@[j]) by {
                    
                }
            }
        }
        assert("Void"@ != "UnsafeRawPointer"@) by {
            if "Void"@.len() == "UnsafeRawPointer"@.len() {
                assert(exists|j: int| 0 <= j < "UnsafeRawPointer"@.len() && "Void"@[j] != "UnsafeRawPointer"@[j]) by {
                    
                }
            }
        }
        assert("RustString"@ != "UnsafeRawPointer"@) by {
            if "RustString"@.len() == "UnsafeRawPointer"@.len() {
                assert(exists|j: int| 0 <= j < "UnsafeRawPointer"@.len() && "RustString"@[j] != "UnsafeRawPointer"@[j]) by {
                    
                }
            }
        }
        assert("RustStringRef"@ != "UnsafeRawPointer"@) by {
            if "RustStringRef"@.len() == "UnsafeRawPointer"@.len() {
                assert(exists|j: int| 0 <= j < "UnsafeRawPointer"@.len() && "RustStringRef"@[j] != "UnsafeRawPointer"@[j]) by {
                    
                }
            }
        }
        assert("RustStringRefMut"@ != "UnsafeRawPointer"@) by {
            if "RustStringRefMut"@.len() == "UnsafeRawPointer"@.len() {
                assert(exists|j: int| 0 <= j < "UnsafeRawPointer"@.len() && "RustStringRefMut"@[j] != "UnsafeRawPointer"@[j]) by {
                    assert("RustStringRefMut"@[0] != "UnsafeRawPointer"@[0]);
                }
            }
        }
        assert("RustStr"@ != "UnsafeRawPointer"@) by {
            if "RustStr"@.len() == "UnsafeRawPointer"@.len() {
                assert(exists|j: int| 0 <= j < "UnsafeRawPointer"@.len() && "RustStr"@[j] != "UnsafeRawPointer"@[j]) by {
                    
                }
            }
        }
    }
    lemma_table_row("UnsafeRawPointer"@, seq![punct('*'), ident("const"@), ident("std"@), TokV::Punct(':', true), punct(':'), ident("ffi"@), TokV::Punct(':', true), punct(':'), ident("c_void"@)]);
    assert(builtin_type("UnsafeMutableRawPointer"@) == Some(seq![punct('*'), ident("mut"@), ident("std"@), TokV::Punct(':', true), punct(':'), ident("ffi"@), TokV::Punct(':', true), punct(':'), ident("c_void"@)])) by {
        reveal_strlit("UInt8");
        reveal_strlit("Int8");
        reveal_strlit("UInt16");
        reveal_strlit("Int16");
        reveal_strlit("UInt32");
        reveal_strlit("Int32");
        reveal_strlit("UInt64");
        reveal_strlit("Int64");
        reveal_strlit("UInt");
        reveal_strlit("Int");
        reveal_strlit("Float");
        reveal_strlit("Double");
        reveal_strlit("Bool");
        reveal_strlit("Void");
        reveal_strlit("RustString");
        reveal_strlit("RustStringRef");
        reveal_strlit("RustStringRefMut");
        reveal_strlit("RustStr");
        reveal_strlit("UnsafeRawPointer");
        reveal_strlit("UnsafeMutableRawPointer");
        assert("UInt8"@ != "UnsafeMutableRawPointer"@) by {
            if "UInt8"@.len() == "UnsafeMutableRawPointer"@.len() {
                assert(exists|j: int| 0 <= j < "UnsafeMutableRawPointer"@.len() && "UInt8"@[j] != "UnsafeMutableRawPointer"@[j]) by {
                    
                }
            }
        }
        assert("Int8"@ != "UnsafeMutableRawPointer"@) by {
            if "Int8"@.len() == "UnsafeMutableRawPointer"@.len() {
                assert(exists|j: int| 0 <= j < "UnsafeMutableRawPointer"@.len() && "Int8"@[j] != "UnsafeMutableRawPointer"@[j]) by {
                    
                }
            }
        }
        assert("UInt16"@ != "UnsafeMutableRawPointer"@) by {
            if "UInt16"@.len() == "UnsafeMutableRawPointer"@.len() {
                assert(exists|j: int| 0 <= j < "UnsafeMutableRawPointer"@.len() && "UInt16"@[j] != "UnsafeMutableRawPointer"@[j]) by {
                    
                }
            }
        }
        assert("Int16"@ != "UnsafeMutableRawPointer"@) by {
            if "Int16"@.len() == "UnsafeMutableRawPointer"@.len() {
                assert(exists|j: int| 0 <= j < "UnsafeMutableRawPointer"@.len() && "Int16"@[j] != "UnsafeMutableRawPointer"@[j]) by {
                    
                }
            }
        }
        assert("UInt32"@ != "UnsafeMutableRawPointer"@) by {
            if "UInt32"@.len() == "UnsafeMutableRawPointer"@.len() {
                assert(exists|j: int| 0 <= j < "UnsafeMutableRawPointer"@.len() && "UInt32"@[j] != "UnsafeMutableRawPointer"@[j]) by {
                    
                }
            }
        }
        assert("Int32"@ != "UnsafeMutableRawPointer"@) by {
            if "Int32"@.len() == "UnsafeMutableRawPointer"@.len() {
                assert(exists|j: int| 0 <= j < "UnsafeMutableRawPointer"@.len() && "Int32"@[j] != "UnsafeMutableRawPointer"@[j]) by {
                    
                }
            }
        }
        assert("UInt64"@ != "UnsafeMutableRawPointer"@) by {
            if "UInt64"@.len() == "UnsafeMutableRawPointer"@.len() {
                assert(exists|j: int| 0 <= j < "UnsafeMutableRawPointer"@.len() && "UInt64"@[j] != "UnsafeMutableRawPointer"@[j]) by {
                    
                }
            }
        }
        assert("Int64"@ != "UnsafeMutableRawPointer"@) by {
            if "Int64"@.len() == "UnsafeMutableRawPointer"@.len() {
                assert(exists|j: int| 0 <= j < "UnsafeMutableRawPointer"@.len() && "Int64"@[j] != "UnsafeMutableRawPointer"@[j]) by {
                    
                }
            }
        }
        assert("UInt"@ != "UnsafeMutableRawPointer"@) by {
            if "UInt"@.len() == "UnsafeMutableRawPointer"@.len() {
                assert(exists|j: int| 0 <= j < "UnsafeMutableRawPointer"@.len() && "UInt"@[j] != "UnsafeMutableRawPointer"@[j]) by {
                    
                }
            }
        }
        assert("Int"@ != "UnsafeMutableRawPointer"@) by {
            if "Int"@.len() == "UnsafeMutableRawPointer"@.len() {
                assert(exists|j: int| 0 <= j < "UnsafeMutableRawPointer"@.len() && "Int"@[j] != "UnsafeMutableRawPointer"@[j]) by {
                    
                }
            }
        }
        assert("Float"@ != "UnsafeMutableRawPointer"@) by {
            if "Float"@.len() == "UnsafeMutableRawPointer"@.len() {
                assert(exists|j: int| 0 <= j < "UnsafeMutableRawPointer"@.len() && "Float"@[j] != "UnsafeMutableRawPointer"@[j]) by {
                    
                }
            }
        }
        assert("Double"@ != "UnsafeMutableRawPointer"@) by {
            if "Double"@.len() == "UnsafeMutableRawPointer"@.len() {
                assert(exists|j: int| 0 <= j < "UnsafeMutableRawPointer"@.len() && "Double"@[j] != "UnsafeMutableRawPointer"@[j]) by {
                    
                }
            }
        }
        assert("Bool"@ != "UnsafeMutableRawPointer"@) by {
            if "Bool"@.len() == "UnsafeMutableRawPointer"@.len() {
                assert(exists|j: int| 0 <= j < "UnsafeMutableRawPointer"@.len() && "Bool"@[j] != "UnsafeMutableRawPointer"@[j]) by {
                    
                }
            }
        }
        assert("Void"@ != "UnsafeMutableRawPointer"@) by {
            if "Void"@.len() == "UnsafeMutableRawPointer"@.len() {
                assert(exists|j: int| 0 <= j < "UnsafeMutableRawPointer"@.len() && "Void"@[j] != "UnsafeMutableRawPointer"@[j]) by {
                    
                }
            }
        }
        assert("RustString"@ != "UnsafeMutableRawPointer"@) by {
            if "RustString"@.len() == "UnsafeMutableRawPointer"@.len() {
                assert(exists|j: int| 0 <= j < "UnsafeMutableRawPointer"@.len() && "RustString"@[j] != "UnsafeMutableRawPointer"@[j]) by {
                    
                }
            }
        }
        assert("RustStringRef"@ != "UnsafeMutableRawPointer"@) by {
            if "RustStringRef"@.len() == "UnsafeMutableRawPointer"@.len() {
                assert(exists|j: int| 0 <= j < "UnsafeMutableRawPointer"@.len() && "RustStringRef"@[j] != "UnsafeMutableRawPointer"@[j]) by {
                    
                }
            }
        }
        assert("RustStringRefMut"@ != "UnsafeMutableRawPointer"@) by {
            if "RustStringRefMut"@.len() == "UnsafeMutableRawPointer"@.len() {
                assert(exists|j: int| 0 <= j < "UnsafeMutableRawPointer"@.len() && "RustStringRefMut"@[j] != "UnsafeMutableRawPointer"@[j]) by {
                    
                }
            }
        }
        assert("RustStr"@ != "UnsafeMutableRawPointer"@) by {
            if "RustStr"@.len() == "UnsafeMutableRawPointer"@.len() {
                assert(exists|j: int| 0 <= j < "UnsafeMutableRawPointer"@.len() && "RustStr"@[j] != "UnsafeMutableRawPointer"@[j]) by {
                    
                }
            }
        }
        assert("UnsafeRawPointer"@ != "UnsafeMutableRawPointer"@) by {
            if "UnsafeRawPointer"@.len() == "UnsafeMutableRawPointer"@.len() {
                assert(exists|j: int| 0 <= j < "UnsafeMutableRawPointer"@.len() && "UnsafeRawPointer"@[j] != "UnsafeMutableRawPointer"@[j]) by {
                    
                }
            }
        }
    }
    lemma_table_row("UnsafeMutableRawPointer"@, seq![punct('*'), ident("mut"@), ident("std"@), TokV::Punct(':', true), punct(':'), ident("ffi"@), TokV::Punct(':', true), punct(':'), ident("c_void"@)]);
    assert(seq![punct('*'), ident("const"@)] + c_void_path() =~= seq![
        punct('*'),
        ident("const"@),
        ident("std"@),
        TokV::Punct(':', true),
        punct(':'),
        ident("ffi"@),
        TokV::Punct(':', true),
        punct(':'),
        ident("c_void"@),
    ]);
    assert(seq![punct('*'), ident("mut"@)] + c_void_path() =~= seq![
        punct('*'),
        ident("mut"@),
        ident("std"@),
        TokV::Punct(':', true),
        punct(':'),
        ident("ffi"@),
        TokV::Punct(':', true),
        punct(':'),
        ident("c_void"@),
    ]);
}

} // verus!
