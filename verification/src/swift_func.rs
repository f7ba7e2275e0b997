//! The Swift-style declarations of an `extern "Swift"` block
//! (`func fetchUser(_ id: UserId) -> User;`, `func!(..)`, `static_func!(..)`),
//! parsed from tokens and rewritten as the Rust foreign functions that
//! swift-bridge understands.
use vstd::prelude::*;
use crate::tokens::{
    copy_range, extend_copy, lemma_toks_v, push_tok, render_tokens, render_toks, tok_v, toks_v,
    Delimiter, Tok, TokV,
};
use crate::swift_types::{error_message, 
    is_ident, is_punct, ident_at, punct_at, ident, punct, next_sep, lemma_next_sep, norm_type,
    res_v, err_v, normalize_swift_type, tok_is_ident, tok_is_punct, new_ident, new_punct,
    next_sep_exec, SwiftSyntaxError, SwiftSyntaxErrorV, colon2_at, arrow_at, path_ident,
    path_ident_at, colon2_exec, arrow_exec, path_ident_exec,
};
use crate::rust_syntax::{
    holds_c_string_start, lit_str_value, may_hold_c_string, parse_ident, spec_lit_str_value, spec_parse_ident, spec_string_literal,
    spec_type_tokens, string_literal, type_tokens,
};
use crate::snake_case::{is_ascii_upper, lemma_snake_case_has_no_upper, snake_case, to_snake_case};
use crate::text::{chars_of, str_eq, views};

verus! {

/// The end of the `::`-separated path segments starting at `j`, or `None`
/// when there is no segment there or a `::` is not followed by one.
pub open spec fn mod_segs_end(t: Seq<TokV>, j: int) -> Option<int>
    decreases t.len() - j,
{
    if path_ident_at(t, j) {
        if colon2_at(t, j + 1) {
            mod_segs_end(t, j + 3)
        } else {
            Some(j + 1)
        }
    } else {
        None
    }
}

/// The end of the module-style path (optional leading `::`) starting at `i`.
pub open spec fn mod_path_end(t: Seq<TokV>, i: int) -> Option<int> {
    if colon2_at(t, i) {
        mod_segs_end(t, i + 2)
    } else {
        mod_segs_end(t, i)
    }
}

/// The bracketed part of an outer attribute: `[` a module-style path and
/// any tokens `]`.
pub open spec fn bracket_attr_ok(t: TokV) -> bool {
    match t {
        TokV::Group(Delimiter::Bracket, g) => mod_path_end(g, 0) is Some,
        _ => false,
    }
}

/// The end of the outer attributes (`#[path ..]`) starting at `i`.
pub open spec fn attrs_end(t: Seq<TokV>, i: int) -> Result<int, SwiftSyntaxErrorV>
    decreases t.len() - i,
{
    if punct_at(t, i, '#') {
        if i + 1 < t.len() && bracket_attr_ok(t[i + 1]) {
            attrs_end(t, i + 2)
        } else {
            Err(SwiftSyntaxErrorV::Syntax)
        }
    } else {
        Ok(i)
    }
}

/// The end of the visibility (`pub`, `pub(crate)`, `pub(in path)`, `crate`,
/// or nothing) starting at `i`.
pub open spec fn vis_end(t: Seq<TokV>, i: int) -> Result<int, SwiftSyntaxErrorV> {
    if 0 <= i < t.len() && t[i] == TokV::Group(Delimiter::Invisible, Seq::empty()) {
        Ok(i + 1)
    } else if ident_at(t, i, "pub"@) {
        if i + 1 < t.len() {
            match t[i + 1] {
                TokV::Group(Delimiter::Parenthesis, g) => {
                    if g.len() == 1 && (is_ident(g[0], "crate"@) || is_ident(g[0], "self"@)
                        || is_ident(g[0], "super"@)) {
                        Ok(i + 2)
                    } else if g.len() >= 1 && is_ident(g[0], "in"@) {
                        if mod_path_end(g, 1) == Some(g.len() as int) {
                            Ok(i + 2)
                        } else {
                            Err(SwiftSyntaxErrorV::Syntax)
                        }
                    } else {
                        Ok(i + 1)
                    }
                },
                _ => Ok(i + 1),
            }
        } else {
            Ok(i + 1)
        }
    } else if ident_at(t, i, "crate"@) && !colon2_at(t, i + 1) {
        Ok(i + 1)
    } else {
        Ok(i)
    }
}

/// The visibility tokens `t[a..v)` as they are printed again (an empty
/// invisible group prints as nothing).
pub open spec fn vis_toks(t: Seq<TokV>, a: int, v: int) -> Seq<TokV> {
    if v == a + 1 && t[a] == TokV::Group(Delimiter::Invisible, Seq::empty()) {
        Seq::empty()
    } else {
        t.subrange(a, v)
    }
}

/// Whether the joined punctuation `c` at `i` stays joined when a type is
/// printed: the quote of a lifetime, and the first characters of `->`, `::`
/// and `..`.
pub open spec fn keeps_joint(s: Seq<TokV>, i: int, end: int, c: char) -> bool {
    c == '\'' || (i + 1 < end && ((c == '-' && is_punct(s[i + 1], '>')) || (c == ':' && is_punct(
        s[i + 1],
        ':',
    )) || (c == '.' && is_punct(s[i + 1], '.'))))
}

/// The token at `i` of `s[..end)` as `syn` prints a type: punctuation is
/// spaced as separate tokens except inside multi-character operators; the
/// expression of an array length and braced constants are kept as written.
pub open spec fn canon_at(s: Seq<TokV>, i: int, end: int) -> TokV
    decreases s, 0int,
{
    if 0 <= i < s.len() {
        match s[i] {
            TokV::Punct(c, j) => TokV::Punct(c, j && keeps_joint(s, i, end, c)),
            TokV::Group(d, g) => {
                if d == Delimiter::Brace {
                    s[i]
                } else if d == Delimiter::Bracket {
                    let k = next_sep(g, ';', 0, 0, g.len() as int);
                    proof {
                        lemma_next_sep(g, ';', 0, 0, g.len() as int);
                    }
                    TokV::Group(d, canon_range(g, 0, k) + g.subrange(k, g.len() as int))
                } else {
                    TokV::Group(d, canon_range(g, 0, g.len() as int))
                }
            },
            _ => s[i],
        }
    } else {
        TokV::Punct(' ', false)
    }
}

/// The tokens `s[i..end)` as `syn` prints a type (see `canon_at`).
pub open spec fn canon_range(s: Seq<TokV>, i: int, end: int) -> Seq<TokV>
    decreases s, end - i + 1,
{
    if 0 <= i < end <= s.len() {
        seq![canon_at(s, i, end)] + canon_range(s, i + 1, end)
    } else {
        Seq::empty()
    }
}

pub open spec fn canon(s: Seq<TokV>) -> Seq<TokV> {
    canon_range(s, 0, s.len() as int)
}

/// The type written in `t[a..stop)`: it must be one Rust type; it comes back
/// normalized and printed as `syn` prints it.
pub open spec fn parse_type_at(t: Seq<TokV>, a: int, stop: int) -> Result<
    Seq<TokV>,
    SwiftSyntaxErrorV,
> {
    if 0 <= a < stop <= t.len() && !may_hold_c_string(render_toks(t.subrange(a, stop)))
        && spec_type_tokens(render_toks(t.subrange(a, stop))) is Some {
        match norm_type(t.subrange(a, stop)) {
            Ok(n) => Ok(canon(n)),
            Err(x) => Err(x),
        }
    } else {
        Err(SwiftSyntaxErrorV::Syntax)
    }
}

fn mod_segs_end_exec(t: &Vec<Tok>, j: usize) -> (r: Option<usize>)
    ensures
        r matches Some(x) ==> mod_segs_end(toks_v(t@), j as int) == Some(x as int),
        r is None ==> mod_segs_end(toks_v(t@), j as int) is None,
    decreases t@.len() - j,
{
    proof {
        lemma_toks_v(t@);
    }
    let n = t.len();
    if path_ident_exec(t, j) {
        if colon2_exec(t, j + 1) {
            mod_segs_end_exec(t, j + 3)
        } else {
            Some(j + 1)
        }
    } else {
        None
    }
}

fn mod_path_end_exec(t: &Vec<Tok>, i: usize) -> (r: Option<usize>)
    ensures
        r matches Some(x) ==> mod_path_end(toks_v(t@), i as int) == Some(x as int),
        r is None ==> mod_path_end(toks_v(t@), i as int) is None,
{
    proof {
        lemma_toks_v(t@);
    }
    let n = t.len();
    if colon2_exec(t, i) {
        mod_segs_end_exec(t, i + 2)
    } else {
        mod_segs_end_exec(t, i)
    }
}

pub open spec fn ri(r: Result<usize, SwiftSyntaxError>) -> Result<int, SwiftSyntaxErrorV> {
    match r {
        Ok(x) => Ok(x as int),
        Err(e) => Err(err_v(e)),
    }
}

fn attrs_end_exec(t: &Vec<Tok>, i: usize) -> (r: Result<usize, SwiftSyntaxError>)
    ensures
        ri(r) == attrs_end(toks_v(t@), i as int),
        r matches Ok(x) ==> i <= x <= t@.len() || (x == i && i > t@.len()),
    decreases t@.len() - i,
{
    proof {
        lemma_toks_v(t@);
    }
    if i < t.len() && tok_is_punct(&t[i], '#') {
        let ok = if i + 1 < t.len() {
            match &t[i + 1] {
                Tok::Group(Delimiter::Bracket, g) => mod_path_end_exec(g, 0).is_some(),
                _ => false,
            }
        } else {
            false
        };
        if ok {
            attrs_end_exec(t, i + 2)
        } else {
            Err(SwiftSyntaxError::Syntax)
        }
    } else {
        Ok(i)
    }
}

fn vis_end_exec(t: &Vec<Tok>, i: usize) -> (r: Result<usize, SwiftSyntaxError>)
    requires
        i <= t@.len(),
    ensures
        ri(r) == vis_end(toks_v(t@), i as int),
        r matches Ok(x) ==> i <= x <= t@.len(),
{
    proof {
        lemma_toks_v(t@);
    }
    if i < t.len() {
        if let Tok::Group(Delimiter::Invisible, g) = &t[i] {
            proof {
                lemma_toks_v(g@);
            }
            if g.len() == 0 {
                assert(toks_v(g@) =~= Seq::<TokV>::empty());
                return Ok(i + 1);
            }
        }
    }
    if i < t.len() && tok_is_ident(&t[i], "pub") {
        if i + 1 < t.len() {
            if let Tok::Group(Delimiter::Parenthesis, g) = &t[i + 1] {
                proof {
                    lemma_toks_v(g@);
                }
                if g.len() == 1 && (tok_is_ident(&g[0], "crate") || tok_is_ident(&g[0], "self")
                    || tok_is_ident(&g[0], "super")) {
                    return Ok(i + 2);
                } else if g.len() >= 1 && tok_is_ident(&g[0], "in") {
                    match mod_path_end_exec(g, 1) {
                        Some(e) => {
                            if e == g.len() {
                                return Ok(i + 2);
                            }
                            return Err(SwiftSyntaxError::Syntax);
                        },
                        None => return Err(SwiftSyntaxError::Syntax),
                    }
                } else {
                    return Ok(i + 1);
                }
            }
        }
        return Ok(i + 1);
    }
    if i < t.len() && tok_is_ident(&t[i], "crate") && !colon2_exec(t, i + 1) {
        return Ok(i + 1);
    }
    Ok(i)
}

/// The token at `i` of `v[..end)` as a type is printed.
fn canon_at_exec(v: &Vec<Tok>, i: usize, end: usize) -> (r: Tok)
    requires
        i < end <= v@.len(),
    ensures
        tok_v(r) == canon_at(toks_v(v@), i as int, end as int),
    decreases v@[i as int],
{
    proof {
        lemma_toks_v(v@);
    }
    match &v[i] {
        Tok::Punct(c, j) => {
            let c = *c;
            let keep = c == '\'' || (i + 1 < end && ((c == '-' && tok_is_punct(&v[i + 1], '>')) || (
            c == ':' && tok_is_punct(&v[i + 1], ':')) || (c == '.' && tok_is_punct(
                &v[i + 1],
                '.',
            ))));
            Tok::Punct(c, *j && keep)
        },
        Tok::Group(d, g) => {
            assert(decreases_to!(v@[i as int] => g));
            proof {
                lemma_toks_v(g@);
            }
            if *d == Delimiter::Brace {
                v[i].copy()
            } else if *d == Delimiter::Bracket {
                let k = next_sep_exec(g, ';', 0, 0, g.len());
                let mut inner = canon_range_exec(g, 0, k);
                let tail = copy_range(g, k, g.len());
                extend_copy(&mut inner, &tail);
                Tok::Group(*d, inner)
            } else {
                Tok::Group(*d, canon_range_exec(g, 0, g.len()))
            }
        },
        _ => v[i].copy(),
    }
}

/// The tokens `v[i..end)` as a type is printed.
fn canon_range_exec(v: &Vec<Tok>, i: usize, end: usize) -> (r: Vec<Tok>)
    requires
        i <= end <= v@.len(),
    ensures
        toks_v(r@) == canon_range(toks_v(v@), i as int, end as int),
    decreases v,
{
    let mut out: Vec<Tok> = Vec::new();
    let mut k = i;
    while k < end
        invariant
            i <= k <= end <= v@.len(),
            toks_v(out@) + canon_range(toks_v(v@), k as int, end as int) == canon_range(
                toks_v(v@),
                i as int,
                end as int,
            ),
        decreases end - k,
    {
        assert(decreases_to!(v => v@[k as int]));
        let t = canon_at_exec(v, k, end);
        let ghost before = toks_v(out@);
        push_tok(&mut out, t);
        proof {
            lemma_toks_v(v@);
            assert(before + canon_range(toks_v(v@), k as int, end as int) == before + (seq![
                canon_at(toks_v(v@), k as int, end as int),
            ] + canon_range(toks_v(v@), k + 1, end as int)));
            assert(toks_v(out@) + canon_range(toks_v(v@), k + 1, end as int) =~= before + (seq![
                canon_at(toks_v(v@), k as int, end as int),
            ] + canon_range(toks_v(v@), k + 1, end as int)));
        }
        k = k + 1;
    }
    assert(canon_range(toks_v(v@), end as int, end as int) =~= Seq::<TokV>::empty());
    assert(toks_v(out@) + Seq::<TokV>::empty() =~= toks_v(out@));
    out
}

/// The type written in `t[a..stop)`, normalized and printed as a type.
fn parse_type_at_exec(t: &Vec<Tok>, a: usize, stop: usize) -> (r: Result<Vec<Tok>, SwiftSyntaxError>)
    requires
        stop <= t@.len(),
    ensures
        res_v(r) == parse_type_at(toks_v(t@), a as int, stop as int),
{
    proof {
        lemma_toks_v(t@);
    }
    if a >= stop {
        return Err(SwiftSyntaxError::Syntax);
    }
    let region = copy_range(t, a, stop);
    let text = render_tokens(&region);
    if holds_c_string_start(text.as_str()) {
        return Err(SwiftSyntaxError::Syntax);
    }
    match type_tokens(text.as_str()) {
        None => Err(SwiftSyntaxError::Syntax),
        Some(_) => match normalize_swift_type(&region) {
            Ok(n) => {
                proof {
                    lemma_toks_v(n@);
                }
                Ok(canon_range_exec(&n, 0, n.len()))
            },
            Err(e) => Err(e),
        },
    }
}


/// How a parameter is labelled in Swift.
pub enum ParamLabel {
    /// `name: Type`: the label is the parameter name.
    Default,
    /// `label name: Type`.
    Label(String),
    /// `_ name: Type`.
    Unlabeled,
}

/// One parameter of a Swift-style declaration.
pub struct SwiftParam {
    /// Its attributes, as written.
    pub attrs: Vec<Tok>,
    pub label: ParamLabel,
    /// The local parameter name, as written.
    pub local: String,
    /// Its type, normalized and printed as a type.
    pub ty: Vec<Tok>,
}

/// A parsed Swift-style declaration.
pub struct SwiftFunc {
    /// Its attributes, as written.
    pub attrs: Vec<Tok>,
    /// Its visibility, as written.
    pub vis: Vec<Tok>,
    pub is_async: bool,
    /// The Swift name.
    pub name: String,
    pub params: Vec<SwiftParam>,
    /// The return type, normalized and printed as a type.
    pub output: Option<Vec<Tok>>,
    /// Declared with `static_func!`.
    pub is_static: bool,
}

pub enum LabelV {
    Default,
    Label(Seq<char>),
    Unlabeled,
}

pub struct ParamV {
    pub attrs: Seq<TokV>,
    pub label: LabelV,
    pub local: Seq<char>,
    pub ty: Seq<TokV>,
}

pub struct FuncV {
    pub attrs: Seq<TokV>,
    pub vis: Seq<TokV>,
    pub is_async: bool,
    pub name: Seq<char>,
    pub params: Seq<ParamV>,
    pub output: Option<Seq<TokV>>,
    pub is_static: bool,
}

pub open spec fn label_v(l: ParamLabel) -> LabelV {
    match l {
        ParamLabel::Default => LabelV::Default,
        ParamLabel::Label(s) => LabelV::Label(s@),
        ParamLabel::Unlabeled => LabelV::Unlabeled,
    }
}

pub open spec fn param_v(p: SwiftParam) -> ParamV {
    ParamV { attrs: toks_v(p.attrs@), label: label_v(p.label), local: p.local@, ty: toks_v(p.ty@) }
}

pub open spec fn params_v(s: Seq<SwiftParam>) -> Seq<ParamV> {
    Seq::new(s.len(), |k: int| param_v(s[k]))
}

pub open spec fn opt_toks_v(o: Option<Vec<Tok>>) -> Option<Seq<TokV>> {
    match o {
        Some(v) => Some(toks_v(v@)),
        None => None,
    }
}

pub open spec fn func_v(f: SwiftFunc) -> FuncV {
    FuncV {
        attrs: toks_v(f.attrs@),
        vis: toks_v(f.vis@),
        is_async: f.is_async,
        name: f.name@,
        params: params_v(f.params@),
        output: opt_toks_v(f.output),
        is_static: f.is_static,
    }
}

/// One parameter `p`: attributes, then `name: Type`, `label name: Type` or
/// `_ name: Type`.
pub open spec fn parse_param(p: Seq<TokV>) -> Result<ParamV, SwiftSyntaxErrorV> {
    match attrs_end(p, 0) {
        Err(x) => Err(x),
        Ok(a) => {
            if !(0 <= a < p.len() && p[a] is Ident) {
                Err(SwiftSyntaxErrorV::Syntax)
            } else {
                let first = p[a]->Ident_0;
                if punct_at(p, a + 1, ':') {
                    if first == "_"@ {
                        Err(SwiftSyntaxErrorV::Syntax)
                    } else {
                        match parse_type_at(p, a + 2, p.len() as int) {
                            Ok(ty) => Ok(
                                ParamV {
                                    attrs: p.subrange(0, a),
                                    label: LabelV::Default,
                                    local: first,
                                    ty,
                                },
                            ),
                            Err(x) => Err(x),
                        }
                    }
                } else if !(a + 1 < p.len() && p[a + 1] is Ident) {
                    Err(SwiftSyntaxErrorV::Syntax)
                } else if !punct_at(p, a + 2, ':') {
                    Err(SwiftSyntaxErrorV::Syntax)
                } else {
                    match parse_type_at(p, a + 3, p.len() as int) {
                        Ok(ty) => Ok(
                            ParamV {
                                attrs: p.subrange(0, a),
                                label: if first == "_"@ {
                                    LabelV::Unlabeled
                                } else {
                                    LabelV::Label(first)
                                },
                                local: p[a + 1]->Ident_0,
                                ty,
                            },
                        ),
                        Err(x) => Err(x),
                    }
                }
            }
        },
    }
}

/// The parameters `g[i..]`, separated by commas (a trailing comma is allowed).
pub open spec fn params_from(g: Seq<TokV>, i: int) -> Result<Seq<ParamV>, SwiftSyntaxErrorV>
    decreases g.len() - i,
{
    if i < 0 || i >= g.len() {
        Ok(Seq::empty())
    } else {
        let e = next_sep(g, ',', 0, i, g.len() as int);
        match parse_param(g.subrange(i, e)) {
            Err(x) => Err(x),
            Ok(p) => {
                if e >= g.len() {
                    Ok(seq![p])
                } else {
                    proof {
                        lemma_next_sep(g, ',', 0, i, g.len() as int);
                    }
                    match params_from(g, e + 1) {
                        Ok(r) => Ok(seq![p] + r),
                        Err(x) => Err(x),
                    }
                }
            },
        }
    }
}

/// The signature after `func`: its name, its parameters, a trailing `async`,
/// the return type (which runs to `stop`), and where it ends.
pub struct SigV {
    pub name: Seq<char>,
    pub params: Seq<ParamV>,
    pub trailing_async: bool,
    pub output: Option<Seq<TokV>>,
    pub end: int,
}

/// The signature `name(params) [async] [-> Type]` at `k`; `lead` tells
/// whether `async` was written before it.
pub open spec fn sig(t: Seq<TokV>, k: int, stop: int, lead: bool) -> Result<SigV, SwiftSyntaxErrorV> {
    if !(0 <= k < t.len() && t[k] is Ident) {
        Err(SwiftSyntaxErrorV::Syntax)
    } else if !(k + 1 < t.len() && t[k + 1] is Group && t[k + 1]->Group_0
        == Delimiter::Parenthesis) {
        Err(SwiftSyntaxErrorV::Syntax)
    } else {
        match params_from(t[k + 1]->Group_1, 0) {
            Err(x) => Err(x),
            Ok(ps) => {
                let m = k + 2;
                let ta = ident_at(t, m, "async"@);
                let m2 = if ta {
                    m + 1
                } else {
                    m
                };
                if lead && ta {
                    Err(SwiftSyntaxErrorV::AsyncTwice)
                } else if arrow_at(t, m2) && m2 + 1 < stop {
                    match parse_type_at(t, m2 + 2, stop) {
                        Ok(ty) => Ok(
                            SigV {
                                name: t[k]->Ident_0,
                                params: ps,
                                trailing_async: ta,
                                output: Some(ty),
                                end: stop,
                            },
                        ),
                        Err(x) => Err(x),
                    }
                } else {
                    Ok(
                        SigV {
                            name: t[k]->Ident_0,
                            params: ps,
                            trailing_async: ta,
                            output: None,
                            end: m2,
                        },
                    )
                }
            },
        }
    }
}

/// `[attrs] [vis] [async] func name(params) [async] [-> Type];`
pub open spec fn parse_func(t: Seq<TokV>) -> Result<FuncV, SwiftSyntaxErrorV> {
    match attrs_end(t, 0) {
        Err(x) => Err(x),
        Ok(a) => match vis_end(t, a) {
            Err(x) => Err(x),
            Ok(v) => {
                let lead = ident_at(t, v, "async"@);
                let k = if lead {
                    v + 1
                } else {
                    v
                };
                if !(0 <= k < t.len() && t[k] is Ident) || !is_ident(t[k], "func"@) {
                    Err(SwiftSyntaxErrorV::Syntax)
                } else {
                    let stop = if t.len() > 0 && is_punct(t.last(), ';') {
                        t.len() - 1
                    } else {
                        t.len() as int
                    };
                    match sig(t, k + 1, stop, lead) {
                        Err(x) => Err(x),
                        Ok(s) => {
                            if punct_at(t, s.end, ';') && s.end + 1 == t.len() {
                                Ok(
                                    FuncV {
                                        attrs: t.subrange(0, a),
                                        vis: vis_toks(t, a, v),
                                        is_async: lead || s.trailing_async,
                                        name: s.name,
                                        params: s.params,
                                        output: s.output,
                                        is_static: false,
                                    },
                                )
                            } else {
                                Err(SwiftSyntaxErrorV::Syntax)
                            }
                        },
                    }
                }
            },
        },
    }
}

/// `[attrs] [vis] func!([async] name(params) [async] [-> Type]);`, or the same
/// with `static_func!`.
pub open spec fn parse_macro(t: Seq<TokV>) -> Result<FuncV, SwiftSyntaxErrorV> {
    match attrs_end(t, 0) {
        Err(x) => Err(x),
        Ok(a) => match vis_end(t, a) {
            Err(x) => Err(x),
            Ok(v) => {
                if !(0 <= v < t.len() && t[v] is Ident) || !(is_ident(t[v], "func"@) || is_ident(
                    t[v],
                    "static_func"@,
                )) {
                    Err(SwiftSyntaxErrorV::Syntax)
                } else if !punct_at(t, v + 1, '!') {
                    Err(SwiftSyntaxErrorV::Syntax)
                } else if !(v + 2 < t.len() && t[v + 2] is Group && t[v + 2]->Group_0
                    == Delimiter::Parenthesis) {
                    Err(SwiftSyntaxErrorV::Syntax)
                } else {
                    let c = t[v + 2]->Group_1;
                    let lead = ident_at(c, 0, "async"@);
                    let k: int = if lead {
                        1
                    } else {
                        0
                    };
                    match sig(c, k, c.len() as int, lead) {
                        Err(x) => Err(x),
                        Ok(s) => {
                            if s.end != c.len() {
                                Err(SwiftSyntaxErrorV::Syntax)
                            } else if !(punct_at(t, v + 3, ';') && v + 4 == t.len()) {
                                Err(SwiftSyntaxErrorV::Syntax)
                            } else {
                                Ok(
                                    FuncV {
                                        attrs: t.subrange(0, a),
                                        vis: vis_toks(t, a, v),
                                        is_async: lead || s.trailing_async,
                                        name: s.name,
                                        params: s.params,
                                        output: s.output,
                                        is_static: is_ident(t[v], "static_func"@),
                                    },
                                )
                            }
                        },
                    }
                }
            },
        },
    }
}

/// Whether an identifier `func` or `static_func` is among the tokens.
pub open spec fn probably_func(t: Seq<TokV>) -> bool {
    exists|k: int| 0 <= k < t.len() && (is_ident(t[k], "func"@) || is_ident(t[k], "static_func"@))
}

/// The index of the first `func` or `static_func` identifier from `i`, or
/// the length.
pub open spec fn first_func_ident(t: Seq<TokV>, i: int) -> int
    decreases t.len() - i,
{
    if i < 0 || i >= t.len() {
        t.len() as int
    } else if is_ident(t[i], "func"@) || is_ident(t[i], "static_func"@) {
        i
    } else {
        first_func_ident(t, i + 1)
    }
}

/// Whether the first `func` or `static_func` identifier is followed by `!`.
pub open spec fn probably_macro(t: Seq<TokV>) -> bool {
    let k = first_func_ident(t, 0);
    k < t.len() && punct_at(t, k + 1, '!')
}

/// One item as a Swift-style declaration, in either form; when both fail,
/// the error of the macro form is reported for what looks like one.
pub open spec fn parse_item(t: Seq<TokV>) -> Result<FuncV, SwiftSyntaxErrorV> {
    match parse_func(t) {
        Ok(f) => Ok(f),
        Err(fe) => match parse_macro(t) {
            Ok(f) => Ok(f),
            Err(me) => if probably_macro(t) {
                Err(me)
            } else {
                Err(fe)
            },
        },
    }
}


pub open spec fn rparam(r: Result<SwiftParam, SwiftSyntaxError>) -> Result<
    ParamV,
    SwiftSyntaxErrorV,
> {
    match r {
        Ok(p) => Ok(param_v(p)),
        Err(e) => Err(err_v(e)),
    }
}

pub open spec fn rparams(r: Result<Vec<SwiftParam>, SwiftSyntaxError>) -> Result<
    Seq<ParamV>,
    SwiftSyntaxErrorV,
> {
    match r {
        Ok(v) => Ok(params_v(v@)),
        Err(e) => Err(err_v(e)),
    }
}

fn ident_text(t: &Tok) -> (r: Option<String>)
    ensures
        r matches Some(s) ==> tok_v(*t) == TokV::Ident(s@),
        r is None ==> !(tok_v(*t) is Ident),
{
    match t {
        Tok::Ident(s) => Some(s.clone()),
        _ => None,
    }
}

fn parse_param_exec(p: &Vec<Tok>) -> (r: Result<SwiftParam, SwiftSyntaxError>)
    ensures
        rparam(r) == parse_param(toks_v(p@)),
{
    proof {
        lemma_toks_v(p@);
    }
    let a = match attrs_end_exec(p, 0) {
        Ok(a) => a,
        Err(x) => return Err(x),
    };
    if a >= p.len() {
        return Err(SwiftSyntaxError::Syntax);
    }
    let first = match ident_text(&p[a]) {
        Some(s) => s,
        None => return Err(SwiftSyntaxError::Syntax),
    };
    let attrs = copy_range(p, 0, a);
    if a + 1 < p.len() && tok_is_punct(&p[a + 1], ':') {
        if str_eq(first.as_str(), "_") {
            return Err(SwiftSyntaxError::Syntax);
        }
        match parse_type_at_exec(p, a + 2, p.len()) {
            Ok(ty) => Ok(SwiftParam { attrs, label: ParamLabel::Default, local: first, ty }),
            Err(x) => Err(x),
        }
    } else {
        if a + 1 >= p.len() {
            return Err(SwiftSyntaxError::Syntax);
        }
        let local = match ident_text(&p[a + 1]) {
            Some(s) => s,
            None => return Err(SwiftSyntaxError::Syntax),
        };
        if !(a + 2 < p.len() && tok_is_punct(&p[a + 2], ':')) {
            return Err(SwiftSyntaxError::Syntax);
        }
        match parse_type_at_exec(p, a + 3, p.len()) {
            Ok(ty) => {
                let label = if str_eq(first.as_str(), "_") {
                    ParamLabel::Unlabeled
                } else {
                    ParamLabel::Label(first)
                };
                Ok(SwiftParam { attrs, label, local, ty })
            },
            Err(x) => Err(x),
        }
    }
}

fn params_from_exec(g: &Vec<Tok>, i: usize) -> (r: Result<Vec<SwiftParam>, SwiftSyntaxError>)
    ensures
        rparams(r) == params_from(toks_v(g@), i as int),
    decreases g@.len() - i,
{
    proof {
        lemma_toks_v(g@);
    }
    if i >= g.len() {
        let v: Vec<SwiftParam> = Vec::new();
        assert(params_v(v@) =~= Seq::<ParamV>::empty());
        return Ok(v);
    }
    let e = next_sep_exec(g, ',', 0, i, g.len());
    let piece = copy_range(g, i, e);
    let p = match parse_param_exec(&piece) {
        Ok(p) => p,
        Err(x) => return Err(x),
    };
    if e >= g.len() {
        let mut v: Vec<SwiftParam> = Vec::new();
        v.push(p);
        assert(params_v(v@) =~= seq![param_v(p)]);
        return Ok(v);
    }
    match params_from_exec(g, e + 1) {
        Ok(r) => {
            let ghost rv = params_v(r@);
            let mut r = r;
            r.insert(0, p);
            assert(params_v(r@) =~= seq![param_v(p)] + rv);
            Ok(r)
        },
        Err(x) => Err(x),
    }
}

/// The parts of a parsed signature.
pub struct Sig {
    pub name: String,
    pub params: Vec<SwiftParam>,
    pub trailing_async: bool,
    pub output: Option<Vec<Tok>>,
    pub end: usize,
}

pub open spec fn rsig(r: Result<Sig, SwiftSyntaxError>) -> Result<SigV, SwiftSyntaxErrorV> {
    match r {
        Ok(s) => Ok(
            SigV {
                name: s.name@,
                params: params_v(s.params@),
                trailing_async: s.trailing_async,
                output: opt_toks_v(s.output),
                end: s.end as int,
            },
        ),
        Err(e) => Err(err_v(e)),
    }
}

fn sig_exec(t: &Vec<Tok>, k: usize, stop: usize, lead: bool) -> (r: Result<Sig, SwiftSyntaxError>)
    requires
        stop <= t@.len(),
    ensures
        rsig(r) == sig(toks_v(t@), k as int, stop as int, lead),
        r matches Ok(s) ==> s.end <= t@.len(),
{
    proof {
        lemma_toks_v(t@);
    }
    if k >= t.len() {
        return Err(SwiftSyntaxError::Syntax);
    }
    let name = match ident_text(&t[k]) {
        Some(s) => s,
        None => return Err(SwiftSyntaxError::Syntax),
    };
    if k + 1 >= t.len() {
        return Err(SwiftSyntaxError::Syntax);
    }
    let params = match &t[k + 1] {
        Tok::Group(Delimiter::Parenthesis, g) => params_from_exec(g, 0),
        _ => return Err(SwiftSyntaxError::Syntax),
    };
    let params = match params {
        Ok(ps) => ps,
        Err(x) => return Err(x),
    };
    let m = k + 2;
    let ta = m < t.len() && tok_is_ident(&t[m], "async");
    let m2 = if ta {
        m + 1
    } else {
        m
    };
    if lead && ta {
        return Err(SwiftSyntaxError::AsyncTwice);
    }
    if arrow_exec(t, m2) && m2 + 1 < stop {
        match parse_type_at_exec(t, m2 + 2, stop) {
            Ok(ty) => Ok(Sig { name, params, trailing_async: ta, output: Some(ty), end: stop }),
            Err(x) => Err(x),
        }
    } else {
        Ok(Sig { name, params, trailing_async: ta, output: None, end: m2 })
    }
}

pub open spec fn rfunc(r: Result<SwiftFunc, SwiftSyntaxError>) -> Result<FuncV, SwiftSyntaxErrorV> {
    match r {
        Ok(f) => Ok(func_v(f)),
        Err(e) => Err(err_v(e)),
    }
}

fn vis_toks_exec(t: &Vec<Tok>, a: usize, v: usize) -> (r: Vec<Tok>)
    requires
        a <= v <= t@.len(),
    ensures
        toks_v(r@) == vis_toks(toks_v(t@), a as int, v as int),
{
    proof {
        lemma_toks_v(t@);
    }
    if a < v && v - a == 1 {
        if let Tok::Group(Delimiter::Invisible, g) = &t[a] {
            proof {
                lemma_toks_v(g@);
            }
            if g.len() == 0 {
                let e: Vec<Tok> = Vec::new();
                assert(toks_v(g@) =~= Seq::<TokV>::empty());
                assert(toks_v(e@) =~= Seq::<TokV>::empty());
                return e;
            }
        }
    }
    copy_range(t, a, v)
}

fn parse_func_exec(t: &Vec<Tok>) -> (r: Result<SwiftFunc, SwiftSyntaxError>)
    ensures
        rfunc(r) == parse_func(toks_v(t@)),
{
    proof {
        lemma_toks_v(t@);
    }
    let a = match attrs_end_exec(t, 0) {
        Ok(a) => a,
        Err(x) => return Err(x),
    };
    let v = match vis_end_exec(t, a) {
        Ok(v) => v,
        Err(x) => return Err(x),
    };
    let lead = v < t.len() && tok_is_ident(&t[v], "async");
    let k = if lead {
        v + 1
    } else {
        v
    };
    if !(k < t.len() && tok_is_ident(&t[k], "func")) {
        return Err(SwiftSyntaxError::Syntax);
    }
    let n = t.len();
    let stop = if n > 0 && tok_is_punct(&t[n - 1], ';') {
        n - 1
    } else {
        n
    };
    let s = match sig_exec(t, k + 1, stop, lead) {
        Ok(s) => s,
        Err(x) => return Err(x),
    };
    if s.end < n && tok_is_punct(&t[s.end], ';') && s.end + 1 == n {
        Ok(
            SwiftFunc {
                attrs: copy_range(t, 0, a),
                vis: vis_toks_exec(t, a, v),
                is_async: lead || s.trailing_async,
                name: s.name,
                params: s.params,
                output: s.output,
                is_static: false,
            },
        )
    } else {
        Err(SwiftSyntaxError::Syntax)
    }
}

fn parse_macro_exec(t: &Vec<Tok>) -> (r: Result<SwiftFunc, SwiftSyntaxError>)
    ensures
        rfunc(r) == parse_macro(toks_v(t@)),
{
    proof {
        lemma_toks_v(t@);
    }
    let a = match attrs_end_exec(t, 0) {
        Ok(a) => a,
        Err(x) => return Err(x),
    };
    let v = match vis_end_exec(t, a) {
        Ok(v) => v,
        Err(x) => return Err(x),
    };
    if v >= t.len() {
        return Err(SwiftSyntaxError::Syntax);
    }
    let is_static = tok_is_ident(&t[v], "static_func");
    if !(tok_is_ident(&t[v], "func") || is_static) {
        return Err(SwiftSyntaxError::Syntax);
    }
    if !(v + 1 < t.len() && tok_is_punct(&t[v + 1], '!')) {
        return Err(SwiftSyntaxError::Syntax);
    }
    if v + 2 >= t.len() {
        return Err(SwiftSyntaxError::Syntax);
    }
    let s = match &t[v + 2] {
        Tok::Group(Delimiter::Parenthesis, c) => {
            proof {
                lemma_toks_v(c@);
            }
            let lead = c.len() > 0 && tok_is_ident(&c[0], "async");
            let k: usize = if lead {
                1
            } else {
                0
            };
            match sig_exec(c, k, c.len(), lead) {
                Ok(s) => {
                    if s.end != c.len() {
                        return Err(SwiftSyntaxError::Syntax);
                    }
                    (s, lead)
                },
                Err(x) => return Err(x),
            }
        },
        _ => return Err(SwiftSyntaxError::Syntax),
    };
    let (s, lead) = s;
    if !(v + 3 < t.len() && tok_is_punct(&t[v + 3], ';') && v + 4 == t.len()) {
        return Err(SwiftSyntaxError::Syntax);
    }
    Ok(
        SwiftFunc {
            attrs: copy_range(t, 0, a),
            vis: vis_toks_exec(t, a, v),
            is_async: lead || s.trailing_async,
            name: s.name,
            params: s.params,
            output: s.output,
            is_static,
        },
    )
}

fn first_func_ident_exec(t: &Vec<Tok>) -> (r: usize)
    ensures
        r == first_func_ident(toks_v(t@), 0),
{
    proof {
        lemma_toks_v(t@);
    }
    let mut k: usize = 0;
    while k < t.len()
        invariant
            k <= t@.len(),
            toks_v(t@).len() == t@.len(),
            forall|x: int| 0 <= x < t@.len() ==> #[trigger] toks_v(t@)[x] == tok_v(t@[x]),
            first_func_ident(toks_v(t@), 0) == first_func_ident(toks_v(t@), k as int),
        decreases t@.len() - k,
    {
        if tok_is_ident(&t[k], "func") || tok_is_ident(&t[k], "static_func") {
            return k;
        }
        k = k + 1;
    }
    k
}

fn probably_macro_exec(t: &Vec<Tok>) -> (r: bool)
    ensures
        r == probably_macro(toks_v(t@)),
{
    proof {
        lemma_toks_v(t@);
    }
    let k = first_func_ident_exec(t);
    k < t.len() && k + 1 < t.len() && tok_is_punct(&t[k + 1], '!')
}

proof fn lemma_first_func_ident(t: Seq<TokV>, i: int)
    requires
        0 <= i <= t.len(),
    ensures
        i <= first_func_ident(t, i) <= t.len(),
        first_func_ident(t, i) < t.len() ==> (is_ident(t[first_func_ident(t, i)], "func"@)
            || is_ident(t[first_func_ident(t, i)], "static_func"@)),
        first_func_ident(t, i) == t.len() ==> forall|k: int|
            i <= k < t.len() ==> !(is_ident(t[k], "func"@) || is_ident(t[k], "static_func"@)),
    decreases t.len() - i,
{
    if i < t.len() && !(is_ident(t[i], "func"@) || is_ident(t[i], "static_func"@)) {
        lemma_first_func_ident(t, i + 1);
    }
}

fn probably_func_exec(t: &Vec<Tok>) -> (r: bool)
    ensures
        r == probably_func(toks_v(t@)),
{
    proof {
        lemma_toks_v(t@);
        lemma_first_func_ident(toks_v(t@), 0);
    }
    first_func_ident_exec(t) < t.len()
}

fn parse_item_exec(t: &Vec<Tok>) -> (r: Result<SwiftFunc, SwiftSyntaxError>)
    ensures
        rfunc(r) == parse_item(toks_v(t@)),
{
    match parse_func_exec(t) {
        Ok(f) => Ok(f),
        Err(fe) => match parse_macro_exec(t) {
            Ok(f) => Ok(f),
            Err(me) => if probably_macro_exec(t) {
                Err(me)
            } else {
                Err(fe)
            },
        },
    }
}


/// What the `#[swift_bridge(..)]` attributes of a declaration say.
pub struct AttrInfoV {
    /// The last `rust_name = ".."` value.
    pub rust_name: Option<Seq<char>>,
    /// `init` is given.
    pub init: bool,
    /// `associated_to = Type` is given.
    pub assoc: bool,
}

/// The entry `c[i..e)` of `#[swift_bridge(..)]` arguments: `rust_name =
/// "lit"`, `init`, `associated_to = Type`, or another key alone, followed by
/// `= value` or by `(..)`. `None` when it is malformed.
pub open spec fn bridge_entry(c: Seq<TokV>, i: int, e: int, acc: AttrInfoV) -> Option<AttrInfoV> {
    if !(0 <= i < e <= c.len() && c[i] is Ident) {
        None
    } else {
        let key = c[i]->Ident_0;
        if key == "rust_name"@ {
            if e == i + 3 && is_punct(c[i + 1], '=') && c[i + 2] is Literal && !may_hold_c_string(
                c[i + 2]->Literal_0,
            ) && spec_lit_str_value(
                c[i + 2]->Literal_0,
            ) is Some {
                Some(
                    AttrInfoV {
                        rust_name: spec_lit_str_value(c[i + 2]->Literal_0),
                        init: acc.init,
                        assoc: acc.assoc,
                    },
                )
            } else {
                None
            }
        } else if key == "init"@ {
            if e == i + 1 {
                Some(AttrInfoV { rust_name: acc.rust_name, init: true, assoc: acc.assoc })
            } else {
                None
            }
        } else if key == "associated_to"@ {
            if e == i + 3 && is_punct(c[i + 1], '=') && c[i + 2] is Ident {
                Some(AttrInfoV { rust_name: acc.rust_name, init: acc.init, assoc: true })
            } else {
                None
            }
        } else if e == i + 1 || (is_punct(c[i + 1], '=') && e > i + 2) || (e == i + 2 && c[i
            + 1] is Group && c[i + 1]->Group_0 == Delimiter::Parenthesis) {
            Some(acc)
        } else {
            None
        }
    }
}

/// The comma-separated entries `c[i..]` (a trailing comma is allowed).
pub open spec fn bridge_entries(c: Seq<TokV>, i: int, acc: AttrInfoV) -> Option<AttrInfoV>
    decreases c.len() - i,
{
    if i < 0 || i >= c.len() {
        Some(acc)
    } else {
        let e = next_sep(c, ',', 0, i, c.len() as int);
        match bridge_entry(c, i, e, acc) {
            None => None,
            Some(a2) => if e >= c.len() {
                Some(a2)
            } else {
                proof {
                    lemma_next_sep(c, ',', 0, i, c.len() as int);
                }
                bridge_entries(c, e + 1, a2)
            },
        }
    }
}

/// Whether the bracketed attribute content `g` is a `swift_bridge` attribute.
pub open spec fn is_bridge_attr(g: Seq<TokV>) -> bool {
    g.len() >= 1 && is_ident(g[0], "swift_bridge"@) && !colon2_at(g, 1)
}

/// The arguments of the `swift_bridge` attribute `g`: one delimited group.
pub open spec fn bridge_args(g: Seq<TokV>, acc: AttrInfoV) -> Option<AttrInfoV> {
    if g.len() == 2 && g[1] is Group && g[1]->Group_0 != Delimiter::Invisible {
        bridge_entries(g[1]->Group_1, 0, acc)
    } else {
        None
    }
}

/// What the `swift_bridge` attributes among `a[i..]` say; a malformed one
/// is an error.
pub open spec fn attrs_info(a: Seq<TokV>, i: int, acc: AttrInfoV) -> Result<
    AttrInfoV,
    SwiftSyntaxErrorV,
>
    decreases a.len() - i,
{
    if 0 <= i && i + 1 < a.len() {
        match a[i + 1] {
            TokV::Group(_, g) => if is_bridge_attr(g) {
                match bridge_args(g, acc) {
                    None => Err(SwiftSyntaxErrorV::AttributeArgs),
                    Some(a2) => attrs_info(a, i + 2, a2),
                }
            } else {
                attrs_info(a, i + 2, acc)
            },
            _ => attrs_info(a, i + 2, acc),
        }
    } else {
        Ok(acc)
    }
}

pub open spec fn no_attr_info() -> AttrInfoV {
    AttrInfoV { rust_name: None, init: false, assoc: false }
}

/// Whether `s` is written as a raw identifier.
pub open spec fn is_raw(s: Seq<char>) -> bool {
    s.len() >= 2 && s[0] == 'r' && s[1] == '#'
}

/// The Rust name of the declaration: the `rust_name` given, `new` for
/// `init`, else the Swift name in snake case.
pub open spec fn rust_fn_name(f: FuncV, info: AttrInfoV) -> Result<Seq<char>, SwiftSyntaxErrorV> {
    match info.rust_name {
        Some(v) => match spec_parse_ident(v) {
            Some(id) => Ok(id),
            None => Err(SwiftSyntaxErrorV::InvalidRustName),
        },
        None => if f.name == "init"@ {
            Ok("new"@)
        } else if is_raw(f.name) {
            Err(SwiftSyntaxErrorV::RawIdentifier)
        } else {
            Ok(snake_case(f.name))
        },
    }
}

/// `#[swift_bridge(inner)]`.
pub open spec fn bridge_attr(inner: Seq<TokV>) -> Seq<TokV> {
    seq![
        punct('#'),
        TokV::Group(
            Delimiter::Bracket,
            seq![ident("swift_bridge"@), TokV::Group(Delimiter::Parenthesis, inner)],
        ),
    ]
}

/// The string literal whose value is `s`.
pub open spec fn str_lit(s: Seq<char>) -> TokV {
    TokV::Literal(spec_string_literal(s))
}

/// `->`.
pub open spec fn arrow() -> Seq<TokV> {
    seq![TokV::Punct('-', true), punct('>')]
}

pub open spec fn label_attr(l: LabelV) -> Seq<TokV> {
    match l {
        LabelV::Default => Seq::empty(),
        LabelV::Label(s) => bridge_attr(seq![ident("label"@), punct('='), str_lit(s)]),
        LabelV::Unlabeled => bridge_attr(seq![ident("label"@), punct('='), str_lit("_"@)]),
    }
}

/// A parameter as a Rust parameter: its attributes, its label attribute,
/// `local_name: Type` with the local name in snake case.
pub open spec fn param_toks(p: ParamV) -> Result<Seq<TokV>, SwiftSyntaxErrorV> {
    if is_raw(p.local) {
        Err(SwiftSyntaxErrorV::RawIdentifier)
    } else {
        Ok(p.attrs + label_attr(p.label) + seq![ident(snake_case(p.local)), punct(':')] + p.ty)
    }
}

/// The parameters `ps[i..]` as Rust parameters, each after a comma unless it
/// comes `first`.
pub open spec fn params_toks(ps: Seq<ParamV>, i: int, first: bool) -> Result<
    Seq<TokV>,
    SwiftSyntaxErrorV,
>
    decreases ps.len() - i,
{
    if i < 0 || i >= ps.len() {
        Ok(Seq::empty())
    } else {
        match param_toks(ps[i]) {
            Err(x) => Err(x),
            Ok(pt) => match params_toks(ps, i + 1, false) {
                Err(x) => Err(x),
                Ok(r) => Ok(
                    (if first {
                        Seq::empty()
                    } else {
                        seq![punct(',')]
                    }) + pt + r,
                ),
            },
        }
    }
}

/// `#[swift_bridge(associated_to = Type)]` when it is to be inferred.
pub open spec fn assoc_toks(needs_assoc: bool, ctx: Option<Seq<char>>) -> Seq<TokV> {
    if needs_assoc && ctx is Some {
        bridge_attr(seq![ident("associated_to"@), punct('='), ident(ctx.unwrap())])
    } else {
        Seq::empty()
    }
}

/// `#[swift_bridge(init)]` for a Swift `init` that does not have it yet.
pub open spec fn init_toks(f: FuncV, info: AttrInfoV) -> Seq<TokV> {
    if f.name == "init"@ && !info.init {
        bridge_attr(seq![ident("init"@)])
    } else {
        Seq::empty()
    }
}

/// Everything before `fn`: the inferred attributes, the declaration's own
/// attributes, its visibility and `async`.
pub open spec fn head_toks(f: FuncV, info: AttrInfoV, needs_assoc: bool, ctx: Option<Seq<char>>) -> Seq<
    TokV,
> {
    bridge_attr(seq![ident("swift_name"@), punct('='), str_lit(f.name)]) + assoc_toks(
        needs_assoc,
        ctx,
    ) + init_toks(f, info) + f.attrs + f.vis + (if f.is_async {
        seq![ident("async"@)]
    } else {
        Seq::empty()
    })
}

/// The parameter list, with `&self` first for an inferred method.
pub open spec fn args_toks(receiver: bool, ps: Seq<TokV>) -> Seq<TokV> {
    if receiver {
        seq![punct('&'), ident("self"@)] + ps
    } else {
        ps
    }
}

/// The return type: `-> Type` for an initializer of the block's type that
/// names none, else the one written.
pub open spec fn out_toks(f: FuncV, is_init: bool, ctx: Option<Seq<char>>) -> Seq<TokV> {
    if is_init && f.output is None && ctx is Some {
        arrow() + seq![ident(ctx.unwrap())]
    } else {
        match f.output {
            Some(ty) => arrow() + ty,
            None => Seq::empty(),
        }
    }
}

/// The declaration `f` as a Rust foreign function, with its Rust name;
/// `ctx` is the single type declared in the block, if there is exactly one.
pub open spec fn emit_func(f: FuncV, ctx: Option<Seq<char>>) -> Result<
    (Seq<TokV>, Seq<char>),
    SwiftSyntaxErrorV,
> {
    match attrs_info(f.attrs, 0, no_attr_info()) {
        Err(x) => Err(x),
        Ok(info) => match rust_fn_name(f, info) {
            Err(x) => Err(x),
            Ok(rn) => {
                let is_init = f.name == "init"@ || info.init;
                let receiver = !f.is_static && ctx is Some && !is_init && !info.assoc;
                match params_toks(f.params, 0, !receiver) {
                    Err(x) => Err(x),
                    Ok(ps) => {
                        let needs_assoc = !((!f.is_static && !is_init) || info.assoc);
                        if needs_assoc && ctx is None && !is_init {
                            Err(SwiftSyntaxErrorV::StaticFuncWithoutType)
                        } else {
                            Ok(
                                (
                                    head_toks(f, info, needs_assoc, ctx) + seq![
                                        ident("fn"@),
                                        ident(rn),
                                        TokV::Group(Delimiter::Parenthesis, args_toks(receiver, ps)),
                                    ] + out_toks(f, is_init, ctx) + seq![punct(';')],
                                    rn,
                                ),
                            )
                        }
                    },
                }
            },
        },
    }
}

/// What the `#[swift_bridge(..)]` attributes of a declaration say.
pub struct AttrInfo {
    pub rust_name: Option<String>,
    pub init: bool,
    pub assoc: bool,
}

pub open spec fn opt_str_v(o: Option<String>) -> Option<Seq<char>> {
    match o {
        Some(s) => Some(s@),
        None => None,
    }
}

pub open spec fn info_v(a: AttrInfo) -> AttrInfoV {
    AttrInfoV { rust_name: opt_str_v(a.rust_name), init: a.init, assoc: a.assoc }
}

pub open spec fn rinfo(r: Option<AttrInfo>) -> Option<AttrInfoV> {
    match r {
        Some(a) => Some(info_v(a)),
        None => None,
    }
}

fn bridge_entry_exec(c: &Vec<Tok>, i: usize, e: usize, acc: AttrInfo) -> (r: Option<AttrInfo>)
    requires
        i <= e <= c@.len(),
    ensures
        rinfo(r) == bridge_entry(toks_v(c@), i as int, e as int, info_v(acc)),
{
    proof {
        lemma_toks_v(c@);
    }
    if i >= e {
        return None;
    }
    let key = match ident_text(&c[i]) {
        Some(k) => k,
        None => return None,
    };
    if str_eq(key.as_str(), "rust_name") {
        if e - i == 3 && tok_is_punct(&c[i + 1], '=') {
            match &c[i + 2] {
                Tok::Literal(raw) => if holds_c_string_start(raw.as_str()) {
                    None
                } else {
                    match lit_str_value(raw.as_str()) {
                        Some(v) => Some(
                            AttrInfo { rust_name: Some(v), init: acc.init, assoc: acc.assoc },
                        ),
                        None => None,
                    }
                },
                _ => None,
            }
        } else {
            None
        }
    } else if str_eq(key.as_str(), "init") {
        if e - i == 1 {
            Some(AttrInfo { rust_name: acc.rust_name, init: true, assoc: acc.assoc })
        } else {
            None
        }
    } else if str_eq(key.as_str(), "associated_to") {
        if e - i == 3 && tok_is_punct(&c[i + 1], '=') && ident_text(&c[i + 2]).is_some() {
            Some(AttrInfo { rust_name: acc.rust_name, init: acc.init, assoc: true })
        } else {
            None
        }
    } else {
        let ok = e - i == 1 || (tok_is_punct(&c[i + 1], '=') && e - i > 2) || (e - i == 2
            && match &c[i + 1] {
            Tok::Group(d, _) => *d == Delimiter::Parenthesis,
            _ => false,
        });
        if ok {
            Some(acc)
        } else {
            None
        }
    }
}

fn bridge_entries_exec(c: &Vec<Tok>, i: usize, acc: AttrInfo) -> (r: Option<AttrInfo>)
    ensures
        rinfo(r) == bridge_entries(toks_v(c@), i as int, info_v(acc)),
    decreases c@.len() - i,
{
    proof {
        lemma_toks_v(c@);
    }
    if i >= c.len() {
        return Some(acc);
    }
    let e = next_sep_exec(c, ',', 0, i, c.len());
    match bridge_entry_exec(c, i, e, acc) {
        None => None,
        Some(a2) => if e >= c.len() {
            Some(a2)
        } else {
            bridge_entries_exec(c, e + 1, a2)
        },
    }
}

pub open spec fn rinfo_res(r: Result<AttrInfo, SwiftSyntaxError>) -> Result<
    AttrInfoV,
    SwiftSyntaxErrorV,
> {
    match r {
        Ok(a) => Ok(info_v(a)),
        Err(e) => Err(err_v(e)),
    }
}

fn attrs_info_exec(a: &Vec<Tok>, i: usize, acc: AttrInfo) -> (r: Result<AttrInfo, SwiftSyntaxError>)
    ensures
        rinfo_res(r) == attrs_info(toks_v(a@), i as int, info_v(acc)),
    decreases a@.len() - i,
{
    proof {
        lemma_toks_v(a@);
    }
    if i < a.len() && i + 1 < a.len() {
        match &a[i + 1] {
            Tok::Group(_, g) => {
                proof {
                    lemma_toks_v(g@);
                }
                let is_bridge = g.len() >= 1 && tok_is_ident(&g[0], "swift_bridge") && !colon2_exec(
                    g,
                    1,
                );
                if is_bridge {
                    let args = if g.len() == 2 {
                        match &g[1] {
                            Tok::Group(d, c) => if *d != Delimiter::Invisible {
                                bridge_entries_exec(c, 0, acc)
                            } else {
                                None
                            },
                            _ => None,
                        }
                    } else {
                        None
                    };
                    match args {
                        None => Err(SwiftSyntaxError::AttributeArgs),
                        Some(a2) => attrs_info_exec(a, i + 2, a2),
                    }
                } else {
                    attrs_info_exec(a, i + 2, acc)
                }
            },
            _ => attrs_info_exec(a, i + 2, acc),
        }
    } else {
        Ok(acc)
    }
}

fn is_raw_exec(s: &str) -> (r: bool)
    ensures
        r == is_raw(s@),
{
    let cs = chars_of(s);
    cs.len() >= 2 && cs[0] == 'r' && cs[1] == '#'
}

pub open spec fn rstr(r: Result<String, SwiftSyntaxError>) -> Result<Seq<char>, SwiftSyntaxErrorV> {
    match r {
        Ok(s) => Ok(s@),
        Err(e) => Err(err_v(e)),
    }
}

fn rust_fn_name_exec(f: &SwiftFunc, info: &AttrInfo) -> (r: Result<String, SwiftSyntaxError>)
    ensures
        rstr(r) == rust_fn_name(func_v(*f), info_v(*info)),
{
    match &info.rust_name {
        Some(v) => match parse_ident(v.as_str()) {
            Some(id) => Ok(id),
            None => Err(SwiftSyntaxError::InvalidRustName),
        },
        None => if str_eq(f.name.as_str(), "init") {
            Ok(String::from_str("new"))
        } else if is_raw_exec(f.name.as_str()) {
            Err(SwiftSyntaxError::RawIdentifier)
        } else {
            Ok(to_snake_case(f.name.as_str()))
        },
    }
}

fn bridge_attr_exec(out: &mut Vec<Tok>, inner: Vec<Tok>)
    ensures
        toks_v(final(out)@) == toks_v(old(out)@) + bridge_attr(toks_v(inner@)),
{
    let mut b: Vec<Tok> = Vec::new();
    push_tok(&mut b, new_ident("swift_bridge"));
    push_tok(&mut b, Tok::Group(Delimiter::Parenthesis, inner));
    assert(toks_v(b@) =~= seq![
        ident("swift_bridge"@),
        TokV::Group(Delimiter::Parenthesis, toks_v(inner@)),
    ]);
    push_tok(out, new_punct('#'));
    push_tok(out, Tok::Group(Delimiter::Bracket, b));
    assert(toks_v(out@) =~= toks_v(old(out)@) + bridge_attr(toks_v(inner@)));
}

fn str_lit_exec(s: &str) -> (r: Tok)
    ensures
        tok_v(r) == str_lit(s@),
{
    Tok::Literal(string_literal(s))
}

/// `key = "value"` for a bridge attribute.
fn key_lit(key: &str, value: &str) -> (r: Vec<Tok>)
    ensures
        toks_v(r@) == seq![ident(key@), punct('='), str_lit(value@)],
{
    let mut v: Vec<Tok> = Vec::new();
    push_tok(&mut v, new_ident(key));
    push_tok(&mut v, new_punct('='));
    push_tok(&mut v, str_lit_exec(value));
    assert(toks_v(v@) =~= seq![ident(key@), punct('='), str_lit(value@)]);
    v
}

fn label_attr_exec(out: &mut Vec<Tok>, l: &ParamLabel)
    ensures
        toks_v(final(out)@) == toks_v(old(out)@) + label_attr(label_v(*l)),
{
    match l {
        ParamLabel::Default => {
            assert(toks_v(out@) + label_attr(label_v(*l)) =~= toks_v(out@));
        },
        ParamLabel::Label(s) => bridge_attr_exec(out, key_lit("label", s.as_str())),
        ParamLabel::Unlabeled => bridge_attr_exec(out, key_lit("label", "_")),
    }
}

fn param_toks_exec(p: &SwiftParam) -> (r: Result<Vec<Tok>, SwiftSyntaxError>)
    ensures
        res_v(r) == param_toks(param_v(*p)),
{
    if is_raw_exec(p.local.as_str()) {
        return Err(SwiftSyntaxError::RawIdentifier);
    }
    let mut out = copy_range(&p.attrs, 0, p.attrs.len());
    proof {
        lemma_toks_v(p.attrs@);
        assert(toks_v(p.attrs@).subrange(0, p.attrs@.len() as int) =~= toks_v(p.attrs@));
    }
    label_attr_exec(&mut out, &p.label);
    push_tok(&mut out, Tok::Ident(to_snake_case(p.local.as_str())));
    push_tok(&mut out, new_punct(':'));
    let ghost before = toks_v(out@);
    extend_copy(&mut out, &p.ty);
    assert(toks_v(out@) =~= toks_v(p.attrs@) + label_attr(label_v(p.label)) + seq![
        ident(snake_case(p.local@)),
        punct(':'),
    ] + toks_v(p.ty@));
    Ok(out)
}

fn params_toks_exec(ps: &Vec<SwiftParam>, i: usize, first: bool) -> (r: Result<
    Vec<Tok>,
    SwiftSyntaxError,
>)
    ensures
        res_v(r) == params_toks(params_v(ps@), i as int, first),
    decreases ps@.len() - i,
{
    if i >= ps.len() {
        let v: Vec<Tok> = Vec::new();
        assert(toks_v(v@) =~= Seq::<TokV>::empty());
        return Ok(v);
    }
    assert(params_v(ps@)[i as int] == param_v(ps@[i as int]));
    let pt = match param_toks_exec(&ps[i]) {
        Ok(pt) => pt,
        Err(x) => return Err(x),
    };
    let rest = match params_toks_exec(ps, i + 1, false) {
        Ok(r) => r,
        Err(x) => return Err(x),
    };
    let mut out: Vec<Tok> = Vec::new();
    if !first {
        push_tok(&mut out, new_punct(','));
    }
    let ghost lead = toks_v(out@);
    assert(lead =~= (if first {
        Seq::<TokV>::empty()
    } else {
        seq![punct(',')]
    }));
    extend_copy(&mut out, &pt);
    extend_copy(&mut out, &rest);
    assert(toks_v(out@) =~= lead + toks_v(pt@) + toks_v(rest@));
    Ok(out)
}

pub open spec fn remit(r: Result<(Vec<Tok>, String), SwiftSyntaxError>) -> Result<
    (Seq<TokV>, Seq<char>),
    SwiftSyntaxErrorV,
> {
    match r {
        Ok((v, n)) => Ok((toks_v(v@), n@)),
        Err(e) => Err(err_v(e)),
    }
}

fn head_exec(f: &SwiftFunc, info: &AttrInfo, needs_assoc: bool, ctx: &Option<String>) -> (r: Vec<
    Tok,
>)
    ensures
        toks_v(r@) == head_toks(func_v(*f), info_v(*info), needs_assoc, opt_str_v(*ctx)),
{
    let ghost fv = func_v(*f);
    let mut out: Vec<Tok> = Vec::new();
    bridge_attr_exec(&mut out, key_lit("swift_name", f.name.as_str()));
    let ghost s1 = toks_v(out@);
    if needs_assoc {
        if let Some(name) = ctx {
            let mut inner: Vec<Tok> = Vec::new();
            push_tok(&mut inner, new_ident("associated_to"));
            push_tok(&mut inner, new_punct('='));
            push_tok(&mut inner, Tok::Ident(name.clone()));
            assert(toks_v(inner@) =~= seq![ident("associated_to"@), punct('='), ident(name@)]);
            bridge_attr_exec(&mut out, inner);
        }
    }
    assert(toks_v(out@) =~= s1 + assoc_toks(needs_assoc, opt_str_v(*ctx)));
    let ghost s2 = toks_v(out@);
    if str_eq(f.name.as_str(), "init") && !info.init {
        let mut inner: Vec<Tok> = Vec::new();
        push_tok(&mut inner, new_ident("init"));
        assert(toks_v(inner@) =~= seq![ident("init"@)]);
        bridge_attr_exec(&mut out, inner);
    }
    assert(toks_v(out@) =~= s2 + init_toks(fv, info_v(*info)));
    let ghost s3 = toks_v(out@);
    extend_copy(&mut out, &f.attrs);
    extend_copy(&mut out, &f.vis);
    let ghost s4 = toks_v(out@);
    if f.is_async {
        push_tok(&mut out, new_ident("async"));
    }
    assert(toks_v(out@) =~= s4 + (if fv.is_async {
        seq![ident("async"@)]
    } else {
        Seq::empty()
    }));
    out
}

fn out_exec(f: &SwiftFunc, is_init: bool, ctx: &Option<String>) -> (r: Vec<Tok>)
    ensures
        toks_v(r@) == out_toks(func_v(*f), is_init, opt_str_v(*ctx)),
{
    let mut tail: Vec<Tok> = Vec::new();
    if is_init && f.output.is_none() && ctx.is_some() {
        push_tok(&mut tail, Tok::Punct('-', true));
        push_tok(&mut tail, new_punct('>'));
        match ctx {
            Some(name) => push_tok(&mut tail, Tok::Ident(name.clone())),
            None => {},
        }
        assert(toks_v(tail@) =~= arrow() + seq![ident(opt_str_v(*ctx).unwrap())]);
    } else {
        match &f.output {
            Some(ty) => {
                push_tok(&mut tail, Tok::Punct('-', true));
                push_tok(&mut tail, new_punct('>'));
                extend_copy(&mut tail, ty);
                assert(toks_v(tail@) =~= arrow() + toks_v(ty@));
            },
            None => {
                assert(toks_v(tail@) =~= Seq::<TokV>::empty());
            },
        }
    }
    tail
}

#[verifier::spinoff_prover]
#[verifier::rlimit(80)]
fn emit_func_exec(f: &SwiftFunc, ctx: &Option<String>) -> (r: Result<
    (Vec<Tok>, String),
    SwiftSyntaxError,
>)
    ensures
        remit(r) == emit_func(func_v(*f), opt_str_v(*ctx)),
{
    let info = match attrs_info_exec(
        &f.attrs,
        0,
        AttrInfo { rust_name: None, init: false, assoc: false },
    ) {
        Ok(i) => i,
        Err(x) => return Err(x),
    };
    assert(info_v(AttrInfo { rust_name: None, init: false, assoc: false }) == no_attr_info());
    let rn = match rust_fn_name_exec(f, &info) {
        Ok(n) => n,
        Err(x) => return Err(x),
    };
    let is_init = str_eq(f.name.as_str(), "init") || info.init;
    let receiver = !f.is_static && ctx.is_some() && !is_init && !info.assoc;
    let ps = match params_toks_exec(&f.params, 0, !receiver) {
        Ok(ps) => ps,
        Err(x) => return Err(x),
    };
    let needs_assoc = !((!f.is_static && !is_init) || info.assoc);
    if needs_assoc && ctx.is_none() && !is_init {
        return Err(SwiftSyntaxError::StaticFuncWithoutType);
    }
    let mut out = head_exec(f, &info, needs_assoc, ctx);
    let ghost h = toks_v(out@);
    push_tok(&mut out, new_ident("fn"));
    push_tok(&mut out, Tok::Ident(rn.clone()));
    let mut args: Vec<Tok> = Vec::new();
    if receiver {
        push_tok(&mut args, new_punct('&'));
        push_tok(&mut args, new_ident("self"));
    }
    extend_copy(&mut args, &ps);
    let ghost argsv = toks_v(args@);
    assert(argsv =~= args_toks(receiver, toks_v(ps@)));
    push_tok(&mut out, Tok::Group(Delimiter::Parenthesis, args));
    let tail = out_exec(f, is_init, ctx);
    extend_copy(&mut out, &tail);
    push_tok(&mut out, new_punct(';'));
    assert(toks_v(out@) =~= h + seq![
        ident("fn"@),
        ident(rn@),
        TokV::Group(Delimiter::Parenthesis, argsv),
    ] + toks_v(tail@) + seq![punct(';')]);
    Ok((out, rn))
}


/// The index of the first `;` from `i`, or the length.
pub open spec fn semi_from(t: Seq<TokV>, i: int) -> int
    decreases t.len() - i,
{
    if i < 0 || i >= t.len() {
        t.len() as int
    } else if is_punct(t[i], ';') {
        i
    } else {
        semi_from(t, i + 1)
    }
}

/// The end of the item starting at `i`: just after its `;`, or the end.
pub open spec fn item_end(t: Seq<TokV>, i: int) -> int {
    if semi_from(t, i) < t.len() {
        semi_from(t, i) + 1
    } else {
        t.len() as int
    }
}

pub proof fn lemma_semi_from(t: Seq<TokV>, i: int)
    requires
        0 <= i <= t.len(),
    ensures
        i <= semi_from(t, i) <= t.len(),
        i < t.len() ==> i < item_end(t, i) <= t.len(),
    decreases t.len() - i,
{
    if i < t.len() && !is_punct(t[i], ';') {
        lemma_semi_from(t, i + 1);
    }
}

/// The name declared by the item `[attrs] [vis] type Name;`.
pub open spec fn type_item_name(it: Seq<TokV>) -> Option<Seq<char>> {
    match attrs_end(it, 0) {
        Err(_) => None,
        Ok(a) => match vis_end(it, a) {
            Err(_) => None,
            Ok(v) => if ident_at(it, v, "type"@) && v + 1 < it.len() && it[v + 1] is Ident
                && spec_parse_ident(it[v + 1]->Ident_0) is Some && punct_at(it, v + 2, ';') && v
                + 3 == it.len() {
                Some(it[v + 1]->Ident_0)
            } else {
                None
            },
        },
    }
}

/// The names of the `type` items among the items of `g` from `i`.
pub open spec fn type_names(g: Seq<TokV>, i: int) -> Seq<Seq<char>>
    decreases g.len() - i,
{
    if i < 0 || i >= g.len() {
        Seq::empty()
    } else {
        let e = item_end(g, i);
        proof {
            lemma_semi_from(g, i);
        }
        (match type_item_name(g.subrange(i, e)) {
            Some(n) => seq![n],
            None => Seq::empty(),
        }) + type_names(g, e)
    }
}

/// The type declared in the block `g`, when it declares exactly one.
pub open spec fn block_ctx(g: Seq<TokV>) -> Option<Seq<char>> {
    let ns = type_names(g, 0);
    if ns.len() == 1 {
        Some(ns[0])
    } else {
        None
    }
}

/// One item of an `extern "Swift"` block: a Swift-style declaration is
/// rewritten (and its Rust name returned); another item is kept, unless it
/// mentions `func` or `static_func`, when the parse error is reported.
pub open spec fn norm_item(it: Seq<TokV>, ctx: Option<Seq<char>>) -> Result<
    (Seq<TokV>, Option<Seq<char>>),
    SwiftSyntaxErrorV,
> {
    match parse_item(it) {
        Ok(f) => match emit_func(f, ctx) {
            Ok((toks, rn)) => Ok((toks, Some(rn))),
            Err(x) => Err(x),
        },
        Err(e) => if probably_func(it) {
            Err(e)
        } else {
            Ok((it, None))
        },
    }
}

/// `p` followed by the tokens of `r`, or the error of `r`.
pub open spec fn lift(p: Seq<TokV>, r: Result<Seq<TokV>, SwiftSyntaxErrorV>) -> Result<
    Seq<TokV>,
    SwiftSyntaxErrorV,
> {
    match r {
        Ok(x) => Ok(p + x),
        Err(e) => Err(e),
    }
}

pub proof fn lemma_lift_assoc(p: Seq<TokV>, q: Seq<TokV>, r: Result<Seq<TokV>, SwiftSyntaxErrorV>)
    ensures
        lift(p, lift(q, r)) == lift(p + q, r),
{
    match r {
        Ok(x) => {
            assert(p + (q + x) =~= (p + q) + x);
        },
        Err(_) => {},
    }
}

/// The items of `g` from `i`, with the Rust names generated so far.
pub open spec fn norm_items(
    g: Seq<TokV>,
    i: int,
    ctx: Option<Seq<char>>,
    names: Seq<Seq<char>>,
) -> Result<Seq<TokV>, SwiftSyntaxErrorV>
    decreases g.len() - i,
{
    if i < 0 || i >= g.len() {
        Ok(Seq::empty())
    } else {
        let e = item_end(g, i);
        proof {
            lemma_semi_from(g, i);
        }
        match norm_item(g.subrange(i, e), ctx) {
            Err(x) => Err(x),
            Ok((toks, None)) => lift(toks, norm_items(g, e, ctx, names)),
            Ok((toks, Some(rn))) => if names.contains(rn) {
                Err(SwiftSyntaxErrorV::DuplicateRustName(rn))
            } else {
                lift(toks, norm_items(g, e, ctx, names.push(rn)))
            },
        }
    }
}

/// The content of an `extern "Swift" { .. }` block, rewritten.
pub open spec fn norm_block(g: Seq<TokV>) -> Result<Seq<TokV>, SwiftSyntaxErrorV> {
    norm_items(g, 0, block_ctx(g), Seq::empty())
}

/// `extern "Swift"` at `i` (the literal's value is `Swift`).
pub open spec fn swift_abi_at(t: Seq<TokV>, i: int) -> bool {
    0 <= i && i + 1 < t.len() && is_ident(t[i], "extern"@) && t[i + 1] is Literal
        && !may_hold_c_string(t[i + 1]->Literal_0) && spec_lit_str_value(t[i + 1]->Literal_0)
        == Some("Swift"@)
}

/// The tokens `t[i..]` with every `extern "Swift" { .. }` block, at any
/// depth, rewritten.
pub open spec fn norm_stream(t: Seq<TokV>, i: int) -> Result<Seq<TokV>, SwiftSyntaxErrorV>
    decreases t, t.len() - i,
{
    if i < 0 || i >= t.len() {
        Ok(Seq::empty())
    } else if swift_abi_at(t, i) {
        if i + 2 < t.len() && t[i + 2] is Group && t[i + 2]->Group_0 == Delimiter::Brace {
            match norm_block(t[i + 2]->Group_1) {
                Err(x) => Err(x),
                Ok(b) => lift(
                    seq![t[i], t[i + 1], TokV::Group(Delimiter::Brace, b)],
                    norm_stream(t, i + 3),
                ),
            }
        } else {
            lift(seq![t[i], t[i + 1]], norm_stream(t, i + 2))
        }
    } else {
        match t[i] {
            TokV::Group(d, g) => match norm_stream(g, 0) {
                Err(x) => Err(x),
                Ok(ng) => lift(seq![TokV::Group(d, ng)], norm_stream(t, i + 1)),
            },
            _ => lift(seq![t[i]], norm_stream(t, i + 1)),
        }
    }
}


fn semi_from_exec(t: &Vec<Tok>, i: usize) -> (r: usize)
    requires
        i <= t@.len(),
    ensures
        r == semi_from(toks_v(t@), i as int),
        i <= r <= t@.len(),
{
    proof {
        lemma_toks_v(t@);
    }
    let mut k = i;
    while k < t.len()
        invariant
            i <= k <= t@.len(),
            toks_v(t@).len() == t@.len(),
            forall|x: int| 0 <= x < t@.len() ==> #[trigger] toks_v(t@)[x] == tok_v(t@[x]),
            semi_from(toks_v(t@), i as int) == semi_from(toks_v(t@), k as int),
        decreases t@.len() - k,
    {
        if tok_is_punct(&t[k], ';') {
            return k;
        }
        k = k + 1;
    }
    k
}

fn item_end_exec(t: &Vec<Tok>, i: usize) -> (r: usize)
    requires
        i < t@.len(),
    ensures
        r == item_end(toks_v(t@), i as int),
        i < r <= t@.len(),
{
    proof {
        lemma_toks_v(t@);
        lemma_semi_from(toks_v(t@), i as int);
    }
    let k = semi_from_exec(t, i);
    if k < t.len() {
        k + 1
    } else {
        t.len()
    }
}

fn type_item_name_exec(it: &Vec<Tok>) -> (r: Option<String>)
    ensures
        opt_str_v(r) == type_item_name(toks_v(it@)),
{
    proof {
        lemma_toks_v(it@);
    }
    let a = match attrs_end_exec(it, 0) {
        Ok(a) => a,
        Err(_) => return None,
    };
    let v = match vis_end_exec(it, a) {
        Ok(v) => v,
        Err(_) => return None,
    };
    if v < it.len() && tok_is_ident(&it[v], "type") && v + 1 < it.len() {
        match ident_text(&it[v + 1]) {
            Some(n) => {
                if parse_ident(n.as_str()).is_some() && v + 2 < it.len() && tok_is_punct(
                    &it[v + 2],
                    ';',
                ) && v + 3 == it.len() {
                    Some(n)
                } else {
                    None
                }
            },
            None => None,
        }
    } else {
        None
    }
}

fn block_ctx_exec(g: &Vec<Tok>) -> (r: Option<String>)
    ensures
        opt_str_v(r) == block_ctx(toks_v(g@)),
{
    proof {
        lemma_toks_v(g@);
    }
    let ghost gv = toks_v(g@);
    let mut i: usize = 0;
    let mut count: usize = 0;
    let mut first: Option<String> = None;
    let ghost mut seen: Seq<Seq<char>> = Seq::empty();
    while i < g.len()
        invariant
            i <= g@.len(),
            gv == toks_v(g@),
            gv.len() == g@.len(),
            type_names(gv, 0) == seen + type_names(gv, i as int),
            count == seen.len(),
            count <= i,
            opt_str_v(first) == (if seen.len() >= 1 {
                Some(seen[0])
            } else {
                None
            }),
        decreases g@.len() - i,
    {
        let e = item_end_exec(g, i);
        let item = copy_range(g, i, e);
        let ghost piece = match type_item_name(gv.subrange(i as int, e as int)) {
            Some(n) => seq![n],
            None => Seq::<Seq<char>>::empty(),
        };
        assert(type_names(gv, i as int) == piece + type_names(gv, e as int));
        match type_item_name_exec(&item) {
            Some(n) => {
                proof {
                    seen = seen.push(n@);
                }
                if count == 0 {
                    first = Some(n);
                }
                count = count + 1;
            },
            None => {},
        }
        proof {
            assert(type_names(gv, 0) =~= seen + type_names(gv, e as int));
        }
        i = e;
    }
    assert(seen + type_names(gv, i as int) =~= seen);
    if count == 1 {
        first
    } else {
        None
    }
}

pub open spec fn rnorm_item(r: Result<(Vec<Tok>, Option<String>), SwiftSyntaxError>) -> Result<
    (Seq<TokV>, Option<Seq<char>>),
    SwiftSyntaxErrorV,
> {
    match r {
        Ok((v, n)) => Ok((toks_v(v@), opt_str_v(n))),
        Err(e) => Err(err_v(e)),
    }
}

fn norm_item_exec(it: &Vec<Tok>, ctx: &Option<String>) -> (r: Result<
    (Vec<Tok>, Option<String>),
    SwiftSyntaxError,
>)
    ensures
        rnorm_item(r) == norm_item(toks_v(it@), opt_str_v(*ctx)),
{
    match parse_item_exec(it) {
        Ok(f) => match emit_func_exec(&f, ctx) {
            Ok((toks, rn)) => Ok((toks, Some(rn))),
            Err(x) => Err(x),
        },
        Err(e) => if probably_func_exec(it) {
            Err(e)
        } else {
            proof {
                lemma_toks_v(it@);
                assert(toks_v(it@).subrange(0, it@.len() as int) =~= toks_v(it@));
            }
            Ok((copy_range(it, 0, it.len()), None))
        },
    }
}

fn contains_name(names: &Vec<String>, s: &str) -> (r: bool)
    ensures
        r == views(names@).contains(s@),
{
    let mut k: usize = 0;
    while k < names.len()
        invariant
            k <= names@.len(),
            forall|x: int| 0 <= x < k ==> names@[x]@ != s@,
        decreases names@.len() - k,
    {
        if str_eq(names[k].as_str(), s) {
            assert(views(names@)[k as int] == s@);
            return true;
        }
        k = k + 1;
    }
    assert(!views(names@).contains(s@)) by {
        if views(names@).contains(s@) {
            let x = choose|x: int| 0 <= x < views(names@).len() && views(names@)[x] == s@;
            assert(names@[x]@ == s@);
        }
    }
    false
}

/// Records `rust_name` among the Rust names generated so far in a block: a
/// name already among them is the duplicate-name error naming it, and the
/// names are left as they were; otherwise the name is added after them.
pub fn track_generated_rust_name(generated_rust_names: &mut Vec<String>, rust_name: String) -> (r:
    Result<(), SwiftSyntaxError>)
    ensures
        r is Err <==> views(old(generated_rust_names)@).contains(rust_name@),
        r matches Err(e) ==> err_v(e) == SwiftSyntaxErrorV::DuplicateRustName(rust_name@)
            && views(final(generated_rust_names)@) == views(old(generated_rust_names)@),
        r is Ok ==> views(final(generated_rust_names)@) == views(old(generated_rust_names)@).push(
            rust_name@,
        ),
{
    if contains_name(generated_rust_names, rust_name.as_str()) {
        return Err(SwiftSyntaxError::DuplicateRustName(rust_name));
    }
    let ghost before = views(generated_rust_names@);
    let ghost rv = rust_name@;
    generated_rust_names.push(rust_name);
    assert(views(generated_rust_names@) =~= before.push(rv));
    Ok(())
}

fn norm_items_exec(g: &Vec<Tok>, ctx: &Option<String>) -> (r: Result<Vec<Tok>, SwiftSyntaxError>)
    ensures
        res_v(r) == norm_items(toks_v(g@), 0, opt_str_v(*ctx), Seq::empty()),
{
    proof {
        lemma_toks_v(g@);
    }
    let ghost gv = toks_v(g@);
    let ghost c = opt_str_v(*ctx);
    let mut out: Vec<Tok> = Vec::new();
    let mut names: Vec<String> = Vec::new();
    let mut i: usize = 0;
    assert(views(names@) =~= Seq::<Seq<char>>::empty());
    assert(toks_v(out@) =~= Seq::<TokV>::empty());
    assert(lift(Seq::<TokV>::empty(), norm_items(gv, 0, c, Seq::empty())) == norm_items(
        gv,
        0,
        c,
        Seq::empty(),
    )) by {
        match norm_items(gv, 0, c, Seq::empty()) {
            Ok(x) => {
                assert(Seq::<TokV>::empty() + x =~= x);
            },
            Err(_) => {},
        }
    }
    while i < g.len()
        invariant
            i <= g@.len(),
            gv == toks_v(g@),
            gv.len() == g@.len(),
            c == opt_str_v(*ctx),
            norm_items(gv, 0, c, Seq::empty()) == lift(
                toks_v(out@),
                norm_items(gv, i as int, c, views(names@)),
            ),
        decreases g@.len() - i,
    {
        let e = item_end_exec(g, i);
        let item = copy_range(g, i, e);
        let ghost before = toks_v(out@);
        let ghost ns = views(names@);
        match norm_item_exec(&item, ctx) {
            Err(x) => {
                return Err(x);
            },
            Ok((toks, None)) => {
                extend_copy(&mut out, &toks);
                proof {
                    lemma_lift_assoc(before, toks_v(toks@), norm_items(gv, e as int, c, ns));
                }
            },
            Ok((toks, Some(rn))) => {
                let ghost rv = rn@;
                match track_generated_rust_name(&mut names, rn) {
                    Err(x) => {
                        return Err(x);
                    },
                    Ok(()) => {},
                }
                extend_copy(&mut out, &toks);
                proof {
                    lemma_lift_assoc(before, toks_v(toks@), norm_items(gv, e as int, c, ns.push(rv)));
                }
            },
        }
        i = e;
    }
    proof {
        match norm_items(gv, i as int, c, views(names@)) {
            Ok(x) => {
                assert(toks_v(out@) + x =~= toks_v(out@));
            },
            Err(_) => {},
        }
    }
    Ok(out)
}

fn norm_block_exec(g: &Vec<Tok>) -> (r: Result<Vec<Tok>, SwiftSyntaxError>)
    ensures
        res_v(r) == norm_block(toks_v(g@)),
{
    let ctx = block_ctx_exec(g);
    norm_items_exec(g, &ctx)
}


fn swift_abi_exec(t: &Vec<Tok>, i: usize) -> (r: bool)
    ensures
        r == swift_abi_at(toks_v(t@), i as int),
{
    proof {
        lemma_toks_v(t@);
    }
    if i < t.len() && i + 1 < t.len() && tok_is_ident(&t[i], "extern") {
        match &t[i + 1] {
            Tok::Literal(raw) => if holds_c_string_start(raw.as_str()) {
                false
            } else {
                match lit_str_value(raw.as_str()) {
                    Some(v) => str_eq(v.as_str(), "Swift"),
                    None => false,
                }
            },
            _ => false,
        }
    } else {
        false
    }
}

/// Rewrites `extern "Swift"` at `i`, and the block after it, onto `out`;
/// returns the index after them.
#[verifier::rlimit(60)]
fn abi_step(t: &Vec<Tok>, i: usize, out: &mut Vec<Tok>) -> (r: Result<usize, SwiftSyntaxError>)
    requires
        swift_abi_at(toks_v(t@), i as int),
    ensures
        match r {
            Ok(j) => i < j <= t@.len() && lift(toks_v(old(out)@), norm_stream(toks_v(t@), i as int))
                == lift(toks_v(final(out)@), norm_stream(toks_v(t@), j as int)),
            Err(e) => norm_stream(toks_v(t@), i as int) == Err::<Seq<TokV>, SwiftSyntaxErrorV>(
                err_v(e),
            ),
        },
{
    proof {
        lemma_toks_v(t@);
    }
    let ghost tv = toks_v(t@);
    let ghost before = toks_v(out@);
    let n = t.len();
    let is_block = n - i > 2 && match &t[i + 2] {
        Tok::Group(d, _) => *d == Delimiter::Brace,
        _ => false,
    };
    if is_block {
        let b = match &t[i + 2] {
            Tok::Group(_, g) => norm_block_exec(g),
            _ => Err(SwiftSyntaxError::Syntax),
        };
        match b {
            Err(x) => Err(x),
            Ok(b) => {
                let ghost head = seq![
                    tv[i as int],
                    tv[i + 1],
                    TokV::Group(Delimiter::Brace, toks_v(b@)),
                ];
                push_tok(out, t[i].copy());
                push_tok(out, t[i + 1].copy());
                push_tok(out, Tok::Group(Delimiter::Brace, b));
                proof {
                    assert(toks_v(out@) =~= before + head);
                    lemma_lift_assoc(before, head, norm_stream(tv, i + 3));
                }
                Ok(i + 3)
            },
        }
    } else {
        let ghost head = seq![tv[i as int], tv[i + 1]];
        push_tok(out, t[i].copy());
        push_tok(out, t[i + 1].copy());
        proof {
            assert(toks_v(out@) =~= before + head);
            lemma_lift_assoc(before, head, norm_stream(tv, i + 2));
        }
        Ok(i + 2)
    }
}

/// A group with its content rewritten.
fn norm_group_exec(tok: &Tok) -> (r: Result<Tok, SwiftSyntaxError>)
    requires
        tok_v(*tok) is Group,
    ensures
        match r {
            Ok(x) => norm_stream(tok_v(*tok)->Group_1, 0) == Ok::<Seq<TokV>, SwiftSyntaxErrorV>(
                tok_v(x)->Group_1,
            )
                && tok_v(x) is Group && tok_v(x)->Group_0 == tok_v(*tok)->Group_0,
            Err(e) => norm_stream(tok_v(*tok)->Group_1, 0) == Err::<Seq<TokV>, SwiftSyntaxErrorV>(
                err_v(e),
            ),
        },
    decreases *tok,
{
    match tok {
        Tok::Group(d, g) => {
            assert(decreases_to!(*tok => g));
            match norm_stream_exec(g) {
                Ok(ng) => Ok(Tok::Group(*d, ng)),
                Err(e) => Err(e),
            }
        },
        _ => Err(SwiftSyntaxError::Syntax),
    }
}

/// The tokens with every `extern "Swift" { .. }` block rewritten.
fn norm_stream_exec(t: &Vec<Tok>) -> (r: Result<Vec<Tok>, SwiftSyntaxError>)
    ensures
        res_v(r) == norm_stream(toks_v(t@), 0),
    decreases t,
{
    proof {
        lemma_toks_v(t@);
    }
    let ghost tv = toks_v(t@);
    let mut out: Vec<Tok> = Vec::new();
    let mut i: usize = 0;
    assert(lift(toks_v(out@), norm_stream(tv, 0)) == norm_stream(tv, 0)) by {
        match norm_stream(tv, 0) {
            Ok(x) => {
                assert(toks_v(out@) + x =~= x);
            },
            Err(_) => {},
        }
    }
    while i < t.len()
        invariant
            i <= t@.len(),
            tv == toks_v(t@),
            tv.len() == t@.len(),
            forall|x: int| 0 <= x < t@.len() ==> #[trigger] tv[x] == tok_v(t@[x]),
            norm_stream(tv, 0) == lift(toks_v(out@), norm_stream(tv, i as int)),
        decreases t@.len() - i,
    {
        let ghost before = toks_v(out@);
        if swift_abi_exec(t, i) {
            match abi_step(t, i, &mut out) {
                Err(x) => return Err(x),
                Ok(j) => {
                    i = j;
                },
            }
        } else {
            let is_group = match &t[i] {
                Tok::Group(_, _) => true,
                _ => false,
            };
            if is_group {
                assert(decreases_to!(t => t@[i as int]));
                match norm_group_exec(&t[i]) {
                    Err(x) => return Err(x),
                    Ok(x) => {
                        let ghost head = seq![tok_v(x)];
                        push_tok(&mut out, x);
                        proof {
                            assert(toks_v(out@) =~= before + head);
                            lemma_lift_assoc(before, head, norm_stream(tv, i + 1));
                        }
                    },
                }
            } else {
                let ghost head = seq![tv[i as int]];
                push_tok(&mut out, t[i].copy());
                proof {
                    assert(toks_v(out@) =~= before + head);
                    lemma_lift_assoc(before, head, norm_stream(tv, i + 1));
                }
            }
            i = i + 1;
        }
    }
    proof {
        match norm_stream(tv, i as int) {
            Ok(x) => {
                assert(toks_v(out@) + x =~= toks_v(out@));
            },
            Err(_) => {},
        }
    }
    Ok(out)
}

/// Rewrites the Swift-style declarations (`func ..;`, `func!(..);`,
/// `static_func!(..);`) of every `extern "Swift"` block among `tokens`, at
/// any depth, as Rust foreign functions; all other tokens are kept. Each
/// declaration gets `#[swift_bridge(swift_name = "..")]`, a snake-case Rust
/// name (or its `rust_name`, or `new` for `init`), Rust parameter types,
/// `&self` when the block declares exactly one type and the declaration is
/// neither static nor an initializer, and `associated_to`/`init`/`-> Type`
/// for static functions and initializers. It switches `proc-macro2` to its
/// own implementation for the rest of the process (see `rust_syntax`).
pub fn normalize_swift_function_syntax(tokens: &Vec<Tok>) -> (r: Result<Vec<Tok>, SwiftSyntaxError>)
    requires
        norm_stream(toks_v(tokens@), 0) != Err::<Seq<TokV>, SwiftSyntaxErrorV>(
            SwiftSyntaxErrorV::RawIdentifier,
        ),
    ensures
        res_v(r) == norm_stream(toks_v(tokens@), 0),
{
    norm_stream_exec(tokens)
}

/// `normalize_swift_function_syntax`, or `None` where a raw identifier
/// (`r#..`) would have to become a new function or parameter name.
pub fn try_normalize_swift_function_syntax(tokens: &Vec<Tok>) -> (r: Option<
    Result<Vec<Tok>, SwiftSyntaxError>,
>)
    ensures
        r is None <==> norm_stream(toks_v(tokens@), 0) == Err::<Seq<TokV>, SwiftSyntaxErrorV>(
            SwiftSyntaxErrorV::RawIdentifier,
        ),
        r matches Some(x) ==> res_v(x) == norm_stream(toks_v(tokens@), 0),
{
    match norm_stream_exec(tokens) {
        Err(SwiftSyntaxError::RawIdentifier) => None,
        _ => Some(normalize_swift_function_syntax(tokens)),
    }
}


/// No `extern "Swift"` among `t[i..]`, at any depth.
pub open spec fn no_swift_block(t: Seq<TokV>, i: int) -> bool
    decreases t, t.len() - i,
{
    if i < 0 || i >= t.len() {
        true
    } else {
        &&& !swift_abi_at(t, i)
        &&& match t[i] {
            TokV::Group(_, g) => no_swift_block(g, 0),
            _ => true,
        }
        &&& no_swift_block(t, i + 1)
    }
}

/// Tokens without an `extern "Swift"` block, at any depth, are kept as they
/// are.
#[verifier::spinoff_prover]
#[verifier::rlimit(100)]
pub proof fn lemma_untouched_without_swift_blocks(t: Seq<TokV>, i: int)
    requires
        0 <= i <= t.len(),
        no_swift_block(t, i),
    ensures
        norm_stream(t, i) == Ok::<Seq<TokV>, SwiftSyntaxErrorV>(t.subrange(i, t.len() as int)),
    decreases t, t.len() - i,
{
    if i < t.len() {
        lemma_untouched_without_swift_blocks(t, i + 1);
        let rest = t.subrange(i + 1, t.len() as int);
        assert(!swift_abi_at(t, i));
        match t[i] {
            TokV::Group(d, g) => {
                lemma_untouched_without_swift_blocks(g, 0);
                assert(g.subrange(0, g.len() as int) =~= g);
                assert(norm_stream(t, i) == lift(seq![TokV::Group(d, g)], norm_stream(t, i + 1)));
            },
            _ => {
                assert(norm_stream(t, i) == lift(seq![t[i]], norm_stream(t, i + 1)));
            },
        }
        assert(seq![t[i]] + rest =~= t.subrange(i, t.len() as int));
    } else {
        assert(t.subrange(i, t.len() as int) =~= Seq::<TokV>::empty());
    }
}

/// An item that mentions neither `func` nor `static_func` is not a
/// Swift-style declaration.
proof fn lemma_parse_needs_func(it: Seq<TokV>)
    requires
        !probably_func(it),
    ensures
        parse_item(it) is Err,
{
}

/// The items of `g` from `i`, when none mentions `func` or `static_func`, are
/// kept as they are.
pub proof fn lemma_items_without_funcs(
    g: Seq<TokV>,
    i: int,
    ctx: Option<Seq<char>>,
    names: Seq<Seq<char>>,
)
    requires
        0 <= i <= g.len(),
        forall|k: int|
            i <= k < g.len() ==> !(is_ident(g[k], "func"@) || is_ident(g[k], "static_func"@)),
    ensures
        norm_items(g, i, ctx, names) == Ok::<Seq<TokV>, SwiftSyntaxErrorV>(
            g.subrange(i, g.len() as int),
        ),
    decreases g.len() - i,
{
    if i < g.len() {
        let e = item_end(g, i);
        lemma_semi_from(g, i);
        let it = g.subrange(i, e);
        assert forall|k: int| 0 <= k < it.len() implies !(is_ident(it[k], "func"@) || is_ident(
            it[k],
            "static_func"@,
        )) by {
            assert(it[k] == g[i + k]);
        }
        lemma_parse_needs_func(it);
        lemma_items_without_funcs(g, e, ctx, names);
        assert(it + g.subrange(e, g.len() as int) =~= g.subrange(i, g.len() as int));
    } else {
        assert(g.subrange(i, g.len() as int) =~= Seq::<TokV>::empty());
    }
}

/// An `extern "Swift"` block in which no item mentions `func` or
/// `static_func` (only Rust-style declarations and types) is kept as it is.
pub proof fn lemma_block_without_funcs(g: Seq<TokV>)
    requires
        forall|k: int|
            0 <= k < g.len() ==> !(is_ident(g[k], "func"@) || is_ident(g[k], "static_func"@)),
    ensures
        norm_block(g) == Ok::<Seq<TokV>, SwiftSyntaxErrorV>(g),
{
    lemma_items_without_funcs(g, 0, block_ctx(g), Seq::empty());
    assert(g.subrange(0, g.len() as int) =~= g);
}

/// The Rust names generated by the items of `g` from `i`.
pub open spec fn item_names(g: Seq<TokV>, i: int, ctx: Option<Seq<char>>) -> Seq<Seq<char>>
    decreases g.len() - i,
{
    if i < 0 || i >= g.len() {
        Seq::empty()
    } else {
        let e = item_end(g, i);
        proof {
            lemma_semi_from(g, i);
        }
        (match norm_item(g.subrange(i, e), ctx) {
            Ok((_, Some(n))) => seq![n],
            _ => Seq::empty(),
        }) + item_names(g, e, ctx)
    }
}

/// When the items of `g` from `i` are rewritten after the distinct names
/// `names`, all the names are distinct.
pub proof fn lemma_item_names_distinct(
    g: Seq<TokV>,
    i: int,
    ctx: Option<Seq<char>>,
    names: Seq<Seq<char>>,
)
    requires
        0 <= i <= g.len(),
        names.no_duplicates(),
        norm_items(g, i, ctx, names) is Ok,
    ensures
        (names + item_names(g, i, ctx)).no_duplicates(),
    decreases g.len() - i,
{
    if i < g.len() {
        let e = item_end(g, i);
        lemma_semi_from(g, i);
        match norm_item(g.subrange(i, e), ctx) {
            Ok((toks, Some(rn))) => {
                assert(!names.contains(rn));
                assert(names.push(rn).no_duplicates()) by {
                    assert forall|a: int, b: int|
                        0 <= a < names.push(rn).len() && 0 <= b < names.push(rn).len() && a
                            != b implies names.push(rn)[a] != names.push(rn)[b] by {
                        if a == names.len() {
                            assert(names[b] == names.push(rn)[b]);
                        } else if b == names.len() {
                            assert(names[a] == names.push(rn)[a]);
                        }
                    }
                }
                lemma_item_names_distinct(g, e, ctx, names.push(rn));
                assert(names + item_names(g, i, ctx) =~= names.push(rn) + item_names(g, e, ctx));
            },
            Ok((toks, None)) => {
                lemma_item_names_distinct(g, e, ctx, names);
                assert(names + item_names(g, i, ctx) =~= names + item_names(g, e, ctx));
            },
            Err(_) => {},
        }
    } else {
        assert(names + item_names(g, i, ctx) =~= names);
    }
}

/// When an `extern "Swift"` block is rewritten, no two of its declarations
/// get the same Rust name.
pub proof fn lemma_block_names_distinct(g: Seq<TokV>)
    requires
        norm_block(g) is Ok,
    ensures
        item_names(g, 0, block_ctx(g)).no_duplicates(),
{
    lemma_item_names_distinct(g, 0, block_ctx(g), Seq::empty());
    assert(Seq::<Seq<char>>::empty() + item_names(g, 0, block_ctx(g)) =~= item_names(
        g,
        0,
        block_ctx(g),
    ));
}

/// A declaration that is neither given a `rust_name` nor named `init` gets
/// its Swift name in snake case as its Rust name, which holds no ASCII
/// capital letter.
pub proof fn lemma_generated_names_are_snake_case(f: FuncV, ctx: Option<Seq<char>>)
    requires
        attrs_info(f.attrs, 0, no_attr_info()) matches Ok(info) && info.rust_name is None,
        f.name != "init"@,
        emit_func(f, ctx) is Ok,
    ensures
        emit_func(f, ctx) matches Ok((_, rn)) && rn == snake_case(f.name) && forall|k: int|
            0 <= k < rn.len() ==> !is_ascii_upper(#[trigger] rn[k]),
{
    lemma_snake_case_has_no_upper(f.name);
}


/// The Swift name of a declaration is recorded on the Rust function it
/// becomes: the function starts with `#[swift_bridge(swift_name = "..")]`
/// holding the name as written, whatever its Rust name is.
pub proof fn lemma_swift_name_is_recorded(f: FuncV, ctx: Option<Seq<char>>)
    requires
        emit_func(f, ctx) is Ok,
    ensures
        emit_func(f, ctx) matches Ok((toks, _)) && toks.subrange(0, 2) == bridge_attr(
            seq![ident("swift_name"@), punct('='), str_lit(f.name)],
        ),
{
    let attr = bridge_attr(seq![ident("swift_name"@), punct('='), str_lit(f.name)]);
    match emit_func(f, ctx) {
        Ok((toks, _)) => {
            assert(toks.subrange(0, 2) =~= attr);
        },
        Err(_) => {},
    }
}

/// Rewriting a block again changes nothing once no `func` or `static_func`
/// identifier is left in it.
pub proof fn lemma_normalized_block_is_stable(g: Seq<TokV>, h: Seq<TokV>)
    requires
        norm_block(g) == Ok::<Seq<TokV>, SwiftSyntaxErrorV>(h),
        forall|k: int|
            0 <= k < h.len() ==> !(is_ident(h[k], "func"@) || is_ident(h[k], "static_func"@)),
    ensures
        norm_block(h) == Ok::<Seq<TokV>, SwiftSyntaxErrorV>(h),
{
    lemma_block_without_funcs(h);
}


/// Whether no identifier `func` or `static_func` is among the tokens `g`.
pub open spec fn no_func_idents(g: Seq<TokV>) -> bool {
    forall|k: int| 0 <= k < g.len() ==> !(is_ident(g[k], "func"@) || is_ident(g[k], "static_func"@))
}

/// Every `extern "Swift" { .. }` block among `t[i..]`, at any depth, holds
/// no `func` or `static_func` identifier among its items.
pub open spec fn swift_blocks_without_funcs(t: Seq<TokV>, i: int) -> bool
    decreases t, t.len() - i,
{
    if i < 0 || i >= t.len() {
        true
    } else if swift_abi_at(t, i) {
        if i + 2 < t.len() && t[i + 2] is Group && t[i + 2]->Group_0 == Delimiter::Brace {
            no_func_idents(t[i + 2]->Group_1) && swift_blocks_without_funcs(t, i + 3)
        } else {
            swift_blocks_without_funcs(t, i + 2)
        }
    } else {
        &&& match t[i] {
            TokV::Group(_, g) => swift_blocks_without_funcs(g, 0),
            _ => true,
        }
        &&& swift_blocks_without_funcs(t, i + 1)
    }
}

/// A token stream whose `extern "Swift"` blocks hold no Swift-style
/// declaration (`func` or `static_func`) is returned unchanged.
#[verifier::spinoff_prover]
#[verifier::rlimit(100)]
pub proof fn lemma_stream_without_swift_funcs_is_unchanged(t: Seq<TokV>, i: int)
    requires
        0 <= i <= t.len(),
        swift_blocks_without_funcs(t, i),
    ensures
        norm_stream(t, i) == Ok::<Seq<TokV>, SwiftSyntaxErrorV>(t.subrange(i, t.len() as int)),
    decreases t, t.len() - i,
{
    if i < t.len() {
        if swift_abi_at(t, i) {
            if i + 2 < t.len() && t[i + 2] is Group && t[i + 2]->Group_0 == Delimiter::Brace {
                let g = t[i + 2]->Group_1;
                lemma_block_without_funcs(g);
                lemma_stream_without_swift_funcs_is_unchanged(t, i + 3);
                assert(t[i + 2] == TokV::Group(Delimiter::Brace, g));
                assert(norm_stream(t, i) == lift(
                    seq![t[i], t[i + 1], TokV::Group(Delimiter::Brace, g)],
                    norm_stream(t, i + 3),
                ));
                assert(seq![t[i], t[i + 1], TokV::Group(Delimiter::Brace, g)] + t.subrange(
                    i + 3,
                    t.len() as int,
                ) =~= t.subrange(i, t.len() as int));
            } else {
                lemma_stream_without_swift_funcs_is_unchanged(t, i + 2);
                assert(norm_stream(t, i) == lift(seq![t[i], t[i + 1]], norm_stream(t, i + 2)));
                assert(seq![t[i], t[i + 1]] + t.subrange(i + 2, t.len() as int) =~= t.subrange(
                    i,
                    t.len() as int,
                ));
            }
        } else {
            lemma_stream_without_swift_funcs_is_unchanged(t, i + 1);
            let rest = t.subrange(i + 1, t.len() as int);
            match t[i] {
                TokV::Group(d, g) => {
                    lemma_stream_without_swift_funcs_is_unchanged(g, 0);
                    assert(g.subrange(0, g.len() as int) =~= g);
                    assert(norm_stream(t, i) == lift(seq![TokV::Group(d, g)], norm_stream(t, i + 1)));
                },
                _ => {
                    assert(norm_stream(t, i) == lift(seq![t[i]], norm_stream(t, i + 1)));
                },
            }
            assert(seq![t[i]] + rest =~= t.subrange(i, t.len() as int));
        }
    } else {
        assert(t.subrange(i, t.len() as int) =~= Seq::<TokV>::empty());
    }
}

/// The Rust name of a Swift-style declaration is checked against the names
/// the earlier declarations of its block generated: a repeated name is the
/// duplicate-name error naming it; otherwise the declaration is rewritten and
/// its name joins those seen for the items after it.
pub proof fn lemma_repeated_rust_name(
    g: Seq<TokV>,
    i: int,
    ctx: Option<Seq<char>>,
    names: Seq<Seq<char>>,
    toks: Seq<TokV>,
    rn: Seq<char>,
)
    requires
        0 <= i < g.len(),
        norm_item(g.subrange(i, item_end(g, i)), ctx) == Ok::<
            (Seq<TokV>, Option<Seq<char>>),
            SwiftSyntaxErrorV,
        >((toks, Some(rn))),
    ensures
        names.contains(rn) ==> norm_items(g, i, ctx, names) == Err::<Seq<TokV>, SwiftSyntaxErrorV>(
            SwiftSyntaxErrorV::DuplicateRustName(rn),
        ),
        !names.contains(rn) ==> norm_items(g, i, ctx, names) == lift(
            toks,
            norm_items(g, item_end(g, i), ctx, names.push(rn)),
        ),
        error_message(SwiftSyntaxErrorV::DuplicateRustName(rn)) == "multiple Swift `func` or `static_func` declarations generate the Rust function name `"@
            + rn + "`; add `#[swift_bridge(rust_name = \"...\")]` to one of them"@,
{
}

/// `async` written before the name of a `func!(..)` signature, and `async`
/// written after its parameters, read alike: both signatures give the same
/// name, parameters and return type, and both are asynchronous.
pub proof fn lemma_async_before_or_after_parameters(h: Seq<TokV>, rest: Seq<TokV>)
    requires
        h.len() == 2,
        !is_ident(h[0], "async"@),
        !ident_at(rest, 0, "async"@),
    ensures
        ({
            let lead = seq![ident("async"@)] + h + rest;
            let trail = h + seq![ident("async"@)] + rest;
            &&& ident_at(lead, 0, "async"@)
            &&& !ident_at(trail, 0, "async"@)
            &&& match (sig(lead, 1, lead.len() as int, true), sig(trail, 0, trail.len() as int, false)) {
                (Ok(a), Ok(b)) => a.name == b.name && a.params == b.params && a.output == b.output
                    && a.end == b.end && b.trailing_async,
                (Err(x), Err(y)) => x == y,
                _ => false,
            }
        }),
{
    let lead = seq![ident("async"@)] + h + rest;
    let trail = h + seq![ident("async"@)] + rest;
    let n = lead.len() as int;
    assert(lead[1] == h[0] && lead[2] == h[1]);
    assert(trail[0] == h[0] && trail[1] == h[1]);
    assert(trail[2] == ident("async"@));
    assert(lead.subrange(3, n) =~= rest);
    assert(trail.subrange(3, n) =~= rest);
    assert(forall|j: int| 3 <= j < n ==> lead[j] == trail[j]) by {
        assert forall|j: int| 3 <= j < n implies lead[j] == trail[j] by {
            assert(lead[j] == rest[j - 3]);
            assert(trail[j] == rest[j - 3]);
        }
    }
    assert(ident_at(lead, 3, "async"@) == ident_at(rest, 0, "async"@));
    if n >= 5 {
        assert(lead.subrange(5, n) =~= trail.subrange(5, n));
    }
}


/// Two token sequences that differ only inside the parenthesised group at `p`.
pub open spec fn differ_only_inside(t1: Seq<TokV>, t2: Seq<TokV>, p: int) -> bool {
    &&& t1.len() == t2.len()
    &&& 0 <= p < t1.len()
    &&& forall|j: int| 0 <= j < t1.len() && j != p ==> t1[j] == t2[j]
    &&& t1[p] is Group && t1[p]->Group_0 == Delimiter::Parenthesis
    &&& t2[p] is Group && t2[p]->Group_0 == Delimiter::Parenthesis
}

/// Outer attributes are read alike in two sequences that differ only inside
/// a parenthesised group.
proof fn lemma_attrs_end_frame(t1: Seq<TokV>, t2: Seq<TokV>, i: int, p: int)
    requires
        differ_only_inside(t1, t2, p),
    ensures
        attrs_end(t1, i) == attrs_end(t2, i),
    decreases t1.len() - i,
{
    if punct_at(t1, i, '#') {
        assert(t1[i] == t2[i]);
        if i + 1 < t1.len() && i + 1 != p {
            assert(t1[i + 1] == t2[i + 1]);
        }
        if i + 1 < t1.len() && bracket_attr_ok(t1[i + 1]) {
            lemma_attrs_end_frame(t1, t2, i + 2, p);
        }
    } else if 0 <= i < t1.len() && i != p {
        assert(t1[i] == t2[i]);
    }
}

/// The outer attributes from `i` end at the latest at an identifier `t[n]`.
proof fn lemma_attrs_end_before(t: Seq<TokV>, i: int, n: int)
    requires
        0 <= i <= n < t.len(),
        t[n] is Ident,
    ensures
        attrs_end(t, i) matches Ok(a) ==> i <= a <= n,
    decreases t.len() - i,
{
    if punct_at(t, i, '#') && i + 1 < t.len() && bracket_attr_ok(t[i + 1]) && i + 2 <= n {
        lemma_attrs_end_before(t, i + 2, n);
    }
}

/// `func!(async name(..) ..);` and `func!(name(..) async ..);` (the same for
/// `static_func!`), with the same attributes and visibility before them, are
/// read as the same declaration.
#[verifier::rlimit(40)]
pub proof fn lemma_async_func_macro(
    pre: Seq<TokV>,
    kw: Seq<char>,
    bang: TokV,
    h: Seq<TokV>,
    rest: Seq<TokV>,
    post: Seq<TokV>,
)
    requires
        kw == "func"@ || kw == "static_func"@,
        h.len() == 2,
        !is_ident(h[0], "async"@),
        !ident_at(rest, 0, "async"@),
    ensures
        parse_macro(
            pre + seq![
                ident(kw),
                bang,
                TokV::Group(Delimiter::Parenthesis, seq![ident("async"@)] + h + rest),
            ] + post,
        ) == parse_macro(
            pre + seq![
                ident(kw),
                bang,
                TokV::Group(Delimiter::Parenthesis, h + seq![ident("async"@)] + rest),
            ] + post,
        ),
{
    reveal_strlit("func");
    reveal_strlit("static_func");
    reveal_strlit("pub");
    reveal_strlit("crate");
    let cl = seq![ident("async"@)] + h + rest;
    let ct = h + seq![ident("async"@)] + rest;
    let tl = pre + seq![ident(kw), bang, TokV::Group(Delimiter::Parenthesis, cl)] + post;
    let tt = pre + seq![ident(kw), bang, TokV::Group(Delimiter::Parenthesis, ct)] + post;
    let n0 = pre.len() as int;
    let p = n0 + 2;
    assert forall|j: int| 0 <= j < tl.len() && j != p implies tl[j] == tt[j] by {
        if j < n0 {
            assert(tl[j] == pre[j] && tt[j] == pre[j]);
        } else if j > p {
            assert(tl[j] == post[j - p - 1] && tt[j] == post[j - p - 1]);
        }
    }
    assert(tl[p] == TokV::Group(Delimiter::Parenthesis, cl));
    assert(tt[p] == TokV::Group(Delimiter::Parenthesis, ct));
    assert(differ_only_inside(tl, tt, p));
    assert(tl[n0] == ident(kw));
    lemma_attrs_end_frame(tl, tt, 0, p);
    lemma_attrs_end_before(tl, 0, n0);
    if let Ok(a) = attrs_end(tl, 0) {
        assert(a <= n0);
        assert(tl[a] == tt[a]);
        assert(tl.subrange(0, a) =~= tt.subrange(0, a));
        if a + 1 < tl.len() {
            assert(tl[a + 1] == tt[a + 1]);
        }
        assert(vis_end(tl, a) == vis_end(tt, a));
        if let Ok(v) = vis_end(tl, a) {
            if a == n0 {
                assert(kw.len() == 4 || kw.len() == 11);
                assert("pub"@.len() == 3 && "crate"@.len() == 5);
                assert(kw != "pub"@ && kw != "crate"@);
                assert(!ident_at(tl, a, "pub"@));
                assert(!ident_at(tl, a, "crate"@));
                assert(v == a);
            }
            assert(v <= n0 + 1);
            assert(tl.subrange(a, v) =~= tt.subrange(a, v));
            assert(vis_toks(tl, a, v) == vis_toks(tt, a, v));
            if v < tl.len() {
                assert(tl[v] == tt[v]);
            }
            if v + 1 < tl.len() && v + 1 != p {
                assert(tl[v + 1] == tt[v + 1]);
            }
            if v + 3 < tl.len() && v + 3 != p {
                assert(tl[v + 3] == tt[v + 3]);
            }
            if v + 2 == p {
                lemma_async_before_or_after_parameters(h, rest);
                assert(tl[v + 2]->Group_1 == cl);
                assert(tt[v + 2]->Group_1 == ct);
                assert(cl.len() == ct.len());
            } else if v + 2 < tl.len() {
                assert(tl[v + 2] == tt[v + 2]);
            }
        }
    }
}


/// Outer attributes are read alike in two sequences that agree before `n`
/// and hold an identifier at `n`.
proof fn lemma_attrs_end_prefix_frame(t1: Seq<TokV>, t2: Seq<TokV>, i: int, n: int)
    requires
        0 <= i <= n < t1.len(),
        n < t2.len(),
        forall|j: int| 0 <= j < n ==> t1[j] == t2[j],
        t1[n] is Ident,
        t2[n] is Ident,
    ensures
        attrs_end(t1, i) == attrs_end(t2, i),
    decreases t1.len() - i,
{
    if i < n {
        assert(t1[i] == t2[i]);
        if i + 1 < n {
            assert(t1[i + 1] == t2[i + 1]);
        }
        if punct_at(t1, i, '#') && i + 1 < t1.len() && bracket_attr_ok(t1[i + 1]) {
            lemma_attrs_end_prefix_frame(t1, t2, i + 2, n);
        }
    }
}

/// `async func name(..) ..;` and `func name(..) async ..;`, with the same
/// attributes and visibility `pre` before them, are read as the same
/// declaration.
#[verifier::rlimit(60)]
pub proof fn lemma_async_func_declaration(pre: Seq<TokV>, h: Seq<TokV>, rest: Seq<TokV>)
    requires
        h.len() == 2,
        !is_ident(h[0], "async"@),
        !ident_at(rest, 0, "async"@),
        attrs_end(pre + seq![ident("async"@), ident("func"@)] + h + rest, 0) matches Ok(a)
            && vis_end(pre + seq![ident("async"@), ident("func"@)] + h + rest, a) == Ok::<
            int,
            SwiftSyntaxErrorV,
        >(pre.len() as int),
    ensures
        parse_func(pre + seq![ident("async"@), ident("func"@)] + h + rest) == parse_func(
            pre + seq![ident("func"@)] + h + seq![ident("async"@)] + rest,
        ),
        parse_func(pre + seq![ident("async"@), ident("func"@)] + h + rest) matches Ok(f)
            ==> f.is_async,
{
    reveal_strlit("func");
    reveal_strlit("async");
    reveal_strlit("pub");
    reveal_strlit("crate");
    let tl = pre + seq![ident("async"@), ident("func"@)] + h + rest;
    let tt = pre + seq![ident("func"@)] + h + seq![ident("async"@)] + rest;
    let n = pre.len() as int;
    let len = tl.len() as int;
    assert(tt.len() == len);
    assert forall|j: int| 0 <= j < n implies tl[j] == tt[j] by {
        assert(tl[j] == pre[j] && tt[j] == pre[j]);
    }
    assert(tl[n] == ident("async"@) && tt[n] == ident("func"@));
    assert(tl[n + 1] == ident("func"@));
    assert(tl[n + 2] == h[0] && tt[n + 1] == h[0]);
    assert(tl[n + 3] == h[1] && tt[n + 2] == h[1]);
    assert(tt[n + 3] == ident("async"@));
    assert forall|j: int| n + 4 <= j < len implies tl[j] == tt[j] by {
        assert(tl[j] == rest[j - n - 4]);
        assert(tt[j] == rest[j - n - 4]);
    }
    assert(ident_at(tl, n + 4, "async"@) == ident_at(rest, 0, "async"@));
    lemma_attrs_end_prefix_frame(tl, tt, 0, n);
    let a = attrs_end(tl, 0)->Ok_0;
    lemma_attrs_end_before(tl, 0, n);
    assert(0 <= a <= n);
    assert(tl[a] == tt[a] || a == n);
    if a + 1 < n {
        assert(tl[a + 1] == tt[a + 1]);
    }
    assert("async"@.len() == 5 && "pub"@.len() == 3 && "crate"@.len() == 5 && "func"@.len() == 4);
    assert("async"@[0] == 'a' && "crate"@[0] == 'c');
    assert("async"@ != "pub"@ && "async"@ != "crate"@);
    assert("func"@ != "pub"@ && "func"@ != "crate"@);
    assert(vis_end(tt, a) == Ok::<int, SwiftSyntaxErrorV>(n));
    assert(tl.subrange(0, a) =~= tt.subrange(0, a));
    assert(tl.subrange(a, n) =~= tt.subrange(a, n));
    assert(vis_toks(tl, a, n) == vis_toks(tt, a, n));
    assert(!ident_at(tt, n, "async"@));
    if rest.len() > 0 {
        assert(tl.last() == tt.last());
    } else {
        assert(tl.last() == h[1]);
        assert(tt.last() == ident("async"@));
    }
    if len >= n + 6 {
        assert(tl.subrange(n + 6, len) =~= tt.subrange(n + 6, len));
        if len >= n + 7 {
            assert(tl.subrange(n + 6, len - 1) =~= tt.subrange(n + 6, len - 1));
        }
    }
}


/// The first `func` or `static_func` is found alike in two sequences that
/// differ only inside a parenthesised group.
proof fn lemma_first_func_ident_frame(t1: Seq<TokV>, t2: Seq<TokV>, i: int, p: int)
    requires
        differ_only_inside(t1, t2, p),
    ensures
        first_func_ident(t1, i) == first_func_ident(t2, i),
    decreases t1.len() - i,
{
    if 0 <= i < t1.len() {
        if i != p {
            assert(t1[i] == t2[i]);
        }
        lemma_first_func_ident_frame(t1, t2, i + 1, p);
    }
}

/// `func!(async name(..) ..);` and `func!(name(..) async ..);` (the same for
/// `static_func!`), with the same attributes and visibility `pre` before
/// them, are rewritten into the same Rust declaration, an `async fn`.
#[verifier::rlimit(60)]
pub proof fn lemma_async_func_macro_item(
    pre: Seq<TokV>,
    kw: Seq<char>,
    bang: TokV,
    h: Seq<TokV>,
    rest: Seq<TokV>,
    post: Seq<TokV>,
    ctx: Option<Seq<char>>,
)
    requires
        kw == "func"@ || kw == "static_func"@,
        is_punct(bang, '!'),
        h.len() == 2,
        !is_ident(h[0], "async"@),
        !ident_at(rest, 0, "async"@),
        ({
            let tl = pre + seq![
                ident(kw),
                bang,
                TokV::Group(Delimiter::Parenthesis, seq![ident("async"@)] + h + rest),
            ] + post;
            attrs_end(tl, 0) matches Ok(a) && vis_end(tl, a) == Ok::<int, SwiftSyntaxErrorV>(
                pre.len() as int,
            )
        }),
    ensures
        ({
            let tl = pre + seq![
                ident(kw),
                bang,
                TokV::Group(Delimiter::Parenthesis, seq![ident("async"@)] + h + rest),
            ] + post;
            let tt = pre + seq![
                ident(kw),
                bang,
                TokV::Group(Delimiter::Parenthesis, h + seq![ident("async"@)] + rest),
            ] + post;
            &&& norm_item(tl, ctx) == norm_item(tt, ctx)
            &&& parse_item(tl) matches Ok(f) ==> f.is_async
        }),
{
    reveal_strlit("func");
    reveal_strlit("static_func");
    reveal_strlit("async");
    let cl = seq![ident("async"@)] + h + rest;
    let ct = h + seq![ident("async"@)] + rest;
    let tl = pre + seq![ident(kw), bang, TokV::Group(Delimiter::Parenthesis, cl)] + post;
    let tt = pre + seq![ident(kw), bang, TokV::Group(Delimiter::Parenthesis, ct)] + post;
    let n0 = pre.len() as int;
    let p = n0 + 2;
    lemma_async_func_macro(pre, kw, bang, h, rest, post);
    assert forall|j: int| 0 <= j < tl.len() && j != p implies tl[j] == tt[j] by {
        if j < n0 {
            assert(tl[j] == pre[j] && tt[j] == pre[j]);
        } else if j > p {
            assert(tl[j] == post[j - p - 1] && tt[j] == post[j - p - 1]);
        }
    }
    assert(tl[p] == TokV::Group(Delimiter::Parenthesis, cl));
    assert(tt[p] == TokV::Group(Delimiter::Parenthesis, ct));
    assert(differ_only_inside(tl, tt, p));
    assert(tl[n0] == ident(kw) && tt[n0] == ident(kw));
    assert(tl[n0 + 1] == bang && tt[n0 + 1] == bang);
    lemma_attrs_end_frame(tl, tt, 0, p);
    let a = attrs_end(tl, 0)->Ok_0;
    lemma_attrs_end_before(tl, 0, n0);
    assert(tl[a] == tt[a]);
    if a + 1 < tl.len() {
        assert(tl[a + 1] == tt[a + 1]);
    }
    assert(vis_end(tt, a) == Ok::<int, SwiftSyntaxErrorV>(n0));
    assert("async"@.len() == 5 && kw.len() != 5);
    assert(!ident_at(tl, n0, "async"@));
    assert(parse_func(tl) == Err::<FuncV, SwiftSyntaxErrorV>(SwiftSyntaxErrorV::Syntax));
    assert(parse_func(tt) == Err::<FuncV, SwiftSyntaxErrorV>(SwiftSyntaxErrorV::Syntax));
    lemma_first_func_ident_frame(tl, tt, 0, p);
    let k = first_func_ident(tl, 0);
    if k + 1 != p && 0 <= k + 1 < tl.len() {
        assert(tl[k + 1] == tt[k + 1]);
    }
    assert(probably_macro(tl) == probably_macro(tt));
    assert forall|j: int| 0 <= j < tl.len() implies (is_ident(tl[j], "func"@) || is_ident(
        tl[j],
        "static_func"@,
    )) == (is_ident(tt[j], "func"@) || is_ident(tt[j], "static_func"@)) by {
        if j != p {
            assert(tl[j] == tt[j]);
        }
    }
    assert(probably_func(tl) == probably_func(tt));
    assert(parse_item(tl) == parse_item(tt));
    if let Ok(f) = parse_macro(tl) {
        let c = tl[n0 + 2]->Group_1;
        assert(c == cl);
        assert(ident_at(cl, 0, "async"@));
    }
}


/// The declarations of an `extern "Swift"` block are rewritten in the context
/// of the block's type only when the block declares exactly one `type`; a
/// block with two or more types (or none) rewrites them with no context: no
/// `&self` receiver and no inferred `associated_to`.
pub proof fn lemma_block_context_needs_exactly_one_type(g: Seq<TokV>)
    ensures
        type_names(g, 0).len() == 1 ==> norm_block(g) == norm_items(
            g,
            0,
            Some(type_names(g, 0)[0]),
            Seq::empty(),
        ),
        type_names(g, 0).len() != 1 ==> norm_block(g) == norm_items(g, 0, None, Seq::empty()),
{
}

} // verus!
