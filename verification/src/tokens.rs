//! A token tree model of Rust source tokens (the shape of a
//! `proc_macro2::TokenStream`), its mathematical view, and text rendering.
use vstd::prelude::*;
use crate::text::{push_char, push_str};

verus! {

/// The delimiter of a token group.
#[derive(Debug, Clone, Copy, PartialEq, Eq, Structural)]
pub enum Delimiter {
    Parenthesis,
    Brace,
    Bracket,
    Invisible,
}

/// One token tree.
pub enum Tok {
    Ident(String),
    /// A punctuation character; `true` when it is joined to the next one (as
    /// the `-` of `->`).
    Punct(char, bool),
    /// A literal, as its source text (a string literal keeps its quotes).
    Literal(String),
    Group(Delimiter, Vec<Tok>),
}

/// The mathematical value of a token tree.
pub enum TokV {
    Ident(Seq<char>),
    Punct(char, bool),
    Literal(Seq<char>),
    Group(Delimiter, Seq<TokV>),
}

pub open spec fn tok_v(t: Tok) -> TokV
    decreases t,
{
    match t {
        Tok::Ident(s) => TokV::Ident(s@),
        Tok::Punct(c, j) => TokV::Punct(c, j),
        Tok::Literal(s) => TokV::Literal(s@),
        Tok::Group(d, g) => {
            proof {
                vstd::std_specs::vec::axiom_vec_decreases_to_view(g);
            }
            TokV::Group(d, toks_v(g@))
        },
    }
}

/// The values of a sequence of token trees.
pub open spec fn toks_v(s: Seq<Tok>) -> Seq<TokV>
    decreases s,
{
    if s.len() == 0 {
        Seq::empty()
    } else {
        toks_v(s.drop_last()).push(tok_v(s.last()))
    }
}

pub proof fn lemma_toks_v(s: Seq<Tok>)
    ensures
        toks_v(s).len() == s.len(),
        forall|i: int| 0 <= i < s.len() ==> #[trigger] toks_v(s)[i] == tok_v(s[i]),
    decreases s.len(),
{
    if s.len() > 0 {
        lemma_toks_v(s.drop_last());
        assert forall|i: int| 0 <= i < s.len() implies #[trigger] toks_v(s)[i] == tok_v(s[i]) by {
            if i < s.len() - 1 {
                assert(s.drop_last()[i] == s[i]);
            }
        }
    }
}

pub proof fn lemma_toks_v_subrange(s: Seq<Tok>, a: int, b: int)
    requires
        0 <= a <= b <= s.len(),
    ensures
        toks_v(s.subrange(a, b)) == toks_v(s).subrange(a, b),
{
    lemma_toks_v(s);
    lemma_toks_v(s.subrange(a, b));
    assert(toks_v(s.subrange(a, b)) =~= toks_v(s).subrange(a, b));
}

pub proof fn lemma_toks_v_push(s: Seq<Tok>, t: Tok)
    ensures
        toks_v(s.push(t)) == toks_v(s).push(tok_v(t)),
{
    assert(s.push(t).drop_last() =~= s);
}

pub proof fn lemma_toks_v_add(s: Seq<Tok>, u: Seq<Tok>)
    ensures
        toks_v(s + u) == toks_v(s) + toks_v(u),
{
    lemma_toks_v(s);
    lemma_toks_v(u);
    lemma_toks_v(s + u);
    assert(toks_v(s + u) =~= toks_v(s) + toks_v(u));
}

impl Tok {
    /// A copy of the token tree.
    #[verifier::loop_isolation(false)]
    pub fn copy(&self) -> (r: Tok)
        ensures
            tok_v(r) == tok_v(*self),
        decreases *self,
    {
        match self {
            Tok::Ident(s) => Tok::Ident(s.clone()),
            Tok::Punct(c, j) => Tok::Punct(*c, *j),
            Tok::Literal(s) => Tok::Literal(s.clone()),
            Tok::Group(d, g) => {
                let mut out: Vec<Tok> = Vec::new();
                let mut i: usize = 0;
                proof {
                    lemma_toks_v(g@);
                }
                while i < g.len()
                    invariant
                        i <= g@.len(),
                        toks_v(out@) == toks_v(g@).subrange(0, i as int),
                        toks_v(g@).len() == g@.len(),
                        forall|k: int| 0 <= k < g@.len() ==> #[trigger] toks_v(g@)[k] == tok_v(g@[k]),
                    decreases g.len() - i,
                {
                    assert(decreases_to!(*self => g));
                    assert(decreases_to!(g => g@[i as int]));
                    let t = g[i].copy();
                    proof {
                        lemma_toks_v_push(out@, t);
                    }
                    out.push(t);
                    i = i + 1;
                    assert(toks_v(out@) =~= toks_v(g@).subrange(0, i as int));
                }
                assert(toks_v(g@).subrange(0, g@.len() as int) =~= toks_v(g@));
                Tok::Group(*d, out)
            },
        }
    }
}

/// Copies of the tokens `v[a..b]`.
pub fn copy_range(v: &Vec<Tok>, a: usize, b: usize) -> (r: Vec<Tok>)
    requires
        a <= b <= v.len(),
    ensures
        toks_v(r@) == toks_v(v@).subrange(a as int, b as int),
{
    let mut out: Vec<Tok> = Vec::new();
    let mut i = a;
    proof {
        lemma_toks_v(v@);
    }
    while i < b
        invariant
            a <= i <= b <= v.len(),
            toks_v(out@) == toks_v(v@).subrange(a as int, i as int),
            toks_v(v@).len() == v@.len(),
            forall|k: int| 0 <= k < v@.len() ==> #[trigger] toks_v(v@)[k] == tok_v(v@[k]),
        decreases b - i,
    {
        let t = v[i].copy();
        proof {
            lemma_toks_v_push(out@, t);
        }
        out.push(t);
        i = i + 1;
        assert(toks_v(out@) =~= toks_v(v@).subrange(a as int, i as int));
    }
    out
}

/// Appends copies of all of `src` to `dst`.
pub fn extend_copy(dst: &mut Vec<Tok>, src: &Vec<Tok>)
    ensures
        toks_v(final(dst)@) == toks_v(old(dst)@) + toks_v(src@),
{
    let mut c = copy_range(src, 0, src.len());
    proof {
        lemma_toks_v(src@);
        assert(toks_v(src@).subrange(0, src@.len() as int) =~= toks_v(src@));
        lemma_toks_v_add(dst@, c@);
    }
    dst.append(&mut c);
}

/// Appends one token.
pub fn push_tok(dst: &mut Vec<Tok>, t: Tok)
    ensures
        toks_v(final(dst)@) == toks_v(old(dst)@).push(tok_v(t)),
{
    proof {
        lemma_toks_v_push(dst@, t);
    }
    dst.push(t);
}

pub open spec fn open_char(d: Delimiter) -> Seq<char> {
    match d {
        Delimiter::Parenthesis => "("@,
        Delimiter::Brace => "{"@,
        Delimiter::Bracket => "["@,
        Delimiter::Invisible => Seq::empty(),
    }
}

pub open spec fn close_char(d: Delimiter) -> Seq<char> {
    match d {
        Delimiter::Parenthesis => ")"@,
        Delimiter::Brace => "}"@,
        Delimiter::Bracket => "]"@,
        Delimiter::Invisible => Seq::empty(),
    }
}

/// The text of one token tree.
pub open spec fn render_tok(t: TokV) -> Seq<char>
    decreases t,
{
    match t {
        TokV::Ident(s) => s,
        TokV::Punct(c, _) => seq![c],
        TokV::Literal(s) => s,
        TokV::Group(d, g) => open_char(d) + render_toks(g) + close_char(d),
    }
}

/// The text of a token sequence: neighbours are separated by one space,
/// except after a joined punctuation character.
pub open spec fn render_toks(s: Seq<TokV>) -> Seq<char>
    decreases s,
{
    if s.len() == 0 {
        Seq::empty()
    } else if s.len() == 1 {
        render_tok(s[0])
    } else {
        let prefix = s.drop_last();
        render_toks(prefix) + (if prefix.last() matches TokV::Punct(_, true) {
            Seq::empty()
        } else {
            " "@
        }) + render_tok(s.last())
    }
}

fn push_open(out: &mut String, d: Delimiter)
    ensures
        final(out)@ == old(out)@ + open_char(d),
{
    match d {
        Delimiter::Parenthesis => push_str(out, "("),
        Delimiter::Brace => push_str(out, "{"),
        Delimiter::Bracket => push_str(out, "["),
        Delimiter::Invisible => {
            assert(old(out)@ + open_char(d) =~= old(out)@);
        },
    }
}

fn push_close(out: &mut String, d: Delimiter)
    ensures
        final(out)@ == old(out)@ + close_char(d),
{
    match d {
        Delimiter::Parenthesis => push_str(out, ")"),
        Delimiter::Brace => push_str(out, "}"),
        Delimiter::Bracket => push_str(out, "]"),
        Delimiter::Invisible => {
            assert(old(out)@ + close_char(d) =~= old(out)@);
        },
    }
}

fn render_one(out: &mut String, t: &Tok)
    ensures
        final(out)@ == old(out)@ + render_tok(tok_v(*t)),
    decreases *t,
{
    match t {
        Tok::Ident(s) => push_str(out, s.as_str()),
        Tok::Punct(c, _) => {
            push_char(out, *c);
            assert(old(out)@.push(*c) =~= old(out)@ + seq![*c]);
        },
        Tok::Literal(s) => push_str(out, s.as_str()),
        Tok::Group(d, g) => {
            push_open(out, *d);
            assert(decreases_to!(*t => g));
            render_into(out, g);
            push_close(out, *d);
        },
    }
}

fn render_into(out: &mut String, v: &Vec<Tok>)
    ensures
        final(out)@ == old(out)@ + render_toks(toks_v(v@)),
    decreases v,
{
    let mut i: usize = 0;
    proof {
        lemma_toks_v(v@);
        assert(toks_v(v@).subrange(0, 0) =~= Seq::<TokV>::empty());
    }
    while i < v.len()
        invariant
            i <= v@.len(),
            toks_v(v@).len() == v@.len(),
            forall|k: int| 0 <= k < v@.len() ==> #[trigger] toks_v(v@)[k] == tok_v(v@[k]),
            out@ == old(out)@ + render_toks(toks_v(v@).subrange(0, i as int)),
        decreases v.len() - i,
    {
        let ghost before = out@;
        let ghost s = toks_v(v@).subrange(0, i + 1);
        assert(s.drop_last() =~= toks_v(v@).subrange(0, i as int));
        assert(s.last() == tok_v(v@[i as int]));
        if i > 0 {
            let joint = match &v[i - 1] {
                Tok::Punct(_, j) => *j,
                _ => false,
            };
            assert(s.drop_last().last() == tok_v(v@[i - 1]));
            if !joint {
                push_str(out, " ");
            }
        } else {
            assert(s =~= seq![s[0]]);
        }
        assert(decreases_to!(v => v@[i as int]));
        render_one(out, &v[i]);
        i = i + 1;
        assert(out@ =~= old(out)@ + render_toks(toks_v(v@).subrange(0, i as int)));
    }
    assert(toks_v(v@).subrange(0, v@.len() as int) =~= toks_v(v@));
}

/// The text of a token sequence (see `render_toks`).
pub fn render_tokens(v: &Vec<Tok>) -> (r: String)
    ensures
        r@ == render_toks(toks_v(v@)),
{
    let mut out = String::new();
    render_into(&mut out, v);
    out
}

} // verus!
