//! The Rust-syntax questions the library asks of `proc-macro2` and `syn`:
//! lexing and parsing text as types, string literals and identifiers.
//!
//! Every wrapper here first calls `proc_macro2::fallback::force()`, so that
//! `proc-macro2` lexes, builds identifiers, prints and quotes with its own
//! implementation in `src/fallback.rs` and `src/parse.rs`, also when the
//! process runs inside a procedural macro. That implementation is plain code
//! on the text it is given: it depends on nothing but its arguments, does not
//! normalise identifiers, and reports a lexing failure as an error rather
//! than a panic. The names below are functions of their arguments in that
//! sense. The switch is process-wide: once one of these wrappers has run,
//! every later `proc-macro2` call in the process uses that implementation
//! too, also token streams built by a caller inside a procedural macro.
//!
//! `syn` 1 panics (in `Lit::new`) on a C-string literal such as `c"x"`,
//! which the lexer accepts; the wrappers that hand text to `syn` therefore
//! require text in which no such literal can start (`may_hold_c_string`).
use vstd::prelude::*;
use crate::text::{chars_of, join, views};

verus! {

/// The printed tokens of each type in the comma-separated type list `args`,
/// or `None` when `args` does not lex or does not parse as such a list.
pub uninterp spec fn spec_fn_arg_types(args: Seq<char>) -> Option<Seq<Seq<char>>>;

/// The printed tokens of the type `ty`, or `None` when it is not one type.
pub uninterp spec fn spec_type_tokens(ty: Seq<char>) -> Option<Seq<char>>;

/// The value of the string literal whose source text is `raw`, or `None`
/// when `raw` is not one string literal.
pub uninterp spec fn spec_lit_str_value(raw: Seq<char>) -> Option<Seq<char>>;

/// The identifier that `s` parses as (keywords are not identifiers), or
/// `None` when it is not one identifier.
pub uninterp spec fn spec_parse_ident(s: Seq<char>) -> Option<Seq<char>>;

/// The source text of the string literal whose value is `s`.
pub uninterp spec fn spec_string_literal(s: Seq<char>) -> Seq<char>;

/// The primitive types whose printed tokens are their spelling.
pub open spec fn primitive_type_text(s: Seq<char>) -> bool {
    ||| s == "u8"@ || s == "i8"@ || s == "u16"@ || s == "i16"@ || s == "u32"@ || s == "i32"@
    ||| s == "u64"@ || s == "i64"@ || s == "usize"@ || s == "isize"@
    ||| s == "bool"@ || s == "f32"@ || s == "f64"@ || s == "()"@
}

/// Every type in `ns` is primitive.
pub open spec fn all_primitive(ns: Seq<Seq<char>>) -> bool {
    forall|i: int| 0 <= i < ns.len() ==> primitive_type_text(#[trigger] ns[i])
}

/// An ASCII letter, digit or `_`: a character that continues a word.
pub open spec fn is_word_char(c: char) -> bool {
    ('a' <= c && c <= 'z') || ('A' <= c && c <= 'Z') || ('0' <= c && c <= '9') || c == '_'
}

/// A `c` at `i` that does not continue a word and is directly followed by
/// `"`, `r"` or `r#`: where a C-string literal (`c"..."`, `cr"..."`,
/// `cr#"..."#`) can start.
pub open spec fn c_string_start_at(s: Seq<char>, i: int) -> bool {
    &&& 0 <= i && i + 1 < s.len()
    &&& s[i] == 'c'
    &&& (i == 0 || !is_word_char(s[i - 1]))
    &&& (s[i + 1] == '"' || (s[i + 1] == 'r' && i + 2 < s.len() && (s[i + 2] == '"' || s[i + 2]
        == '#')))
}

/// Whether `s` may lex into a C-string literal. `syn` 1 does not know that
/// kind of literal and panics when it meets one, so no text for which this
/// holds is handed to it. (A `c` inside a string literal or a comment can make
/// this hold too; it is a conservative test.)
pub open spec fn may_hold_c_string(s: Seq<char>) -> bool {
    exists|i: int| #[trigger] c_string_start_at(s, i)
}

/// Whether `s` may lex into a C-string literal (see `may_hold_c_string`).
pub fn holds_c_string_start(s: &str) -> (r: bool)
    ensures
        r == may_hold_c_string(s@),
{
    let v = chars_of(s);
    let n = v.len();
    let mut i: usize = 0;
    while i < n
        invariant
            n == v@.len(),
            v@ == s@,
            i <= n,
            forall|j: int| 0 <= j < i ==> !#[trigger] c_string_start_at(s@, j),
        decreases n - i,
    {
        if i + 1 < n && v[i] == 'c' {
            let starts = i == 0 || {
                let p = v[i - 1];
                !(('a' <= p && p <= 'z') || ('A' <= p && p <= 'Z') || ('0' <= p && p <= '9') || p
                    == '_')
            };
            let quote = v[i + 1] == '"' || (v[i + 1] == 'r' && i + 2 < n && (v[i + 2] == '"' || v[i
                + 2] == '#'));
            if starts && quote {
                assert(c_string_start_at(s@, i as int));
                return true;
            }
        }
        i = i + 1;
    }
    assert forall|j: int| !#[trigger] c_string_start_at(s@, j) by {
        if 0 <= j < n {
        }
    }
    false
}

/// Lexes `args` with `proc_macro2::TokenStream::from_str` and parses it with
/// `syn::punctuated::Punctuated::<syn::Type, syn::token::Comma>::parse_terminated`;
/// each type is printed back with `quote::ToTokens::to_token_stream`. The
/// result is named, not described: it is whatever `syn` makes of the text.
/// One fact is stated: a `" , "`-joined list of primitive types (`u8`,
/// `bool`, `()`, ...) parses as those types, each printed as it is written.
#[verifier::external_body]
pub(crate) fn fn_arg_types(args: &str) -> (r: Option<Vec<String>>)
    requires
        !may_hold_c_string(args@),
    ensures
        r matches Some(v) ==> spec_fn_arg_types(args@) == Some(views(v@)),
        r is None ==> spec_fn_arg_types(args@) is None,
        r matches Some(v) ==> forall|ns: Seq<Seq<char>>|
            #![trigger join(ns, " , "@)]
            all_primitive(ns) && args@ == join(ns, " , "@) ==> views(v@) == ns,
        r is None ==> forall|ns: Seq<Seq<char>>|
            #![trigger join(ns, " , "@)]
            !(all_primitive(ns) && args@ == join(ns, " , "@)),
{
    proc_macro2::fallback::force();
    let tokens = args.parse::<proc_macro2::TokenStream>().ok()?;
    let parser = syn::punctuated::Punctuated::<syn::Type, syn::token::Comma>::parse_terminated;
    let parsed = syn::parse::Parser::parse2(parser, tokens).ok()?;
    let mut out = Vec::new();
    for ty in parsed {
        out.push(quote::ToTokens::to_token_stream(&ty).to_string());
    }
    Some(out)
}

/// Lexes `ty` with `proc_macro2`, parses it with `syn::parse2::<syn::Type>`
/// and prints it back with `quote::ToTokens::to_token_stream`. Named, not
/// described, but for one fact: a primitive type (`u8`, `bool`, `()`, ...)
/// is printed as it is written.
#[verifier::external_body]
pub(crate) fn type_tokens(ty: &str) -> (r: Option<String>)
    requires
        !may_hold_c_string(ty@),
    ensures
        r matches Some(t) ==> spec_type_tokens(ty@) == Some(t@),
        r is None ==> spec_type_tokens(ty@) is None,
        r matches Some(t) ==> (primitive_type_text(ty@) ==> t@ == ty@),
        r is None ==> !primitive_type_text(ty@),
{
    proc_macro2::fallback::force();
    let tokens = ty.parse::<proc_macro2::TokenStream>().ok()?;
    let parsed = syn::parse2::<syn::Type>(tokens).ok()?;
    Some(quote::ToTokens::to_token_stream(&parsed).to_string())
}

/// Parses `raw` with `syn::parse_str::<syn::LitStr>` and returns
/// `syn::LitStr::value`. Named, not described.
#[verifier::external_body]
pub(crate) fn lit_str_value(raw: &str) -> (r: Option<String>)
    requires
        !may_hold_c_string(raw@),
    ensures
        r matches Some(v) ==> spec_lit_str_value(raw@) == Some(v@),
        r is None ==> spec_lit_str_value(raw@) is None,
{
    proc_macro2::fallback::force();
    syn::parse_str::<syn::LitStr>(raw).ok().map(|lit| lit.value())
}

/// Parses `s` with `syn::parse_str::<syn::Ident>` (which refuses keywords)
/// and prints the identifier back with `to_string`. Named, not described.
#[verifier::external_body]
pub(crate) fn parse_ident(s: &str) -> (r: Option<String>)
    ensures
        r matches Some(v) ==> spec_parse_ident(s@) == Some(v@),
        r is None ==> spec_parse_ident(s@) is None,
{
    proc_macro2::fallback::force();
    syn::parse_str::<syn::Ident>(s).ok().map(|ident| ident.to_string())
}

/// The text of `proc_macro2::Literal::string(s)`: `s` quoted, with the
/// escapes that function chooses. Named, not described.
#[verifier::external_body]
pub(crate) fn string_literal(s: &str) -> (r: String)
    ensures
        r@ == spec_string_literal(s@),
{
    proc_macro2::fallback::force();
    proc_macro2::Literal::string(s).to_string()
}

} // verus!
