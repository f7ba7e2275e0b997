//! Parsing of the printed token text of a callback type such as
//! `Box < dyn FnOnce (u8 , String) -> u8 + Send + 'static >` into its owner,
//! `Fn` trait, trait bounds, argument list text and return type text.
use vstd::prelude::*;
use crate::text::{
    chars_of, find_char, find_char_from, find_from, is_whitespace, lemma_find_from, lemma_trim_end,
    lemma_trim_start, starts_with, string_from_chars, subvec, trim, trim_end, vec_starts_with, vec_trim,
};

verus! {

/// Who owns the callback: `Box<dyn ..>` or `Arc<dyn ..>`.
#[derive(Debug, Clone, Copy, PartialEq, Eq, Structural)]
pub enum BridgeableFnOwner {
    Box,
    Arc,
}

/// The closure trait: `FnOnce` or `Fn`.
#[derive(Debug, Clone, Copy, PartialEq, Eq, Structural)]
pub enum BridgeableFnTrait {
    FnOnce,
    Fn,
}

/// An extra trait bound on the closure type.
#[derive(Debug, Clone, Copy, PartialEq, Eq, Structural)]
pub enum BridgeableFnTraitBound {
    Send,
    Sync,
    Static,
}

/// Whether `s` starts with `p` and the character after `p` is `(` or a space.
pub open spec fn prefix_matches(s: Seq<char>, p: Seq<char>) -> bool {
    &&& starts_with(s, p)
    &&& s.len() > p.len()
    &&& (s[p.len() as int] == '(' || s[p.len() as int] == ' ')
}

/// The recognised callback spellings, tried in this order; the remainder
/// after the matched prefix is the signature. The type is read as its
/// tokens print (`Box < dyn FnOnce (u8) -> u8 >`).
pub open spec fn spec_callback_prefix(s: Seq<char>) -> Option<
    (BridgeableFnOwner, BridgeableFnTrait, Seq<char>),
> {
    if prefix_matches(s, "Box < dyn FnOnce"@) {
        Some((BridgeableFnOwner::Box, BridgeableFnTrait::FnOnce, s.skip("Box < dyn FnOnce"@.len() as int)))
    } else if prefix_matches(s, "Box < dyn Fn"@) {
        Some((BridgeableFnOwner::Box, BridgeableFnTrait::Fn, s.skip("Box < dyn Fn"@.len() as int)))
    } else if prefix_matches(s, "Arc < dyn Fn"@) {
        Some((BridgeableFnOwner::Arc, BridgeableFnTrait::Fn, s.skip("Arc < dyn Fn"@.len() as int)))
    } else if prefix_matches(s, "std :: sync :: Arc < dyn Fn"@) {
        Some(
            (
                BridgeableFnOwner::Arc,
                BridgeableFnTrait::Fn,
                s.skip("std :: sync :: Arc < dyn Fn"@.len() as int),
            ),
        )
    } else {
        None
    }
}

/// The end of a signature: surrounding whitespace removed, then the one `>`
/// that closes `Box<..>` or `Arc<..>`, then trailing `,` and whitespace.
pub open spec fn spec_trim_signature_end(s: Seq<char>) -> Seq<char> {
    let t = trim(s);
    if t.len() > 0 && t.last() == '>' {
        trim_trailing_commas(t.drop_last())
    } else {
        trim_trailing_commas(t)
    }
}

/// Surrounding whitespace and trailing `,` removed.
pub open spec fn trim_trailing_commas(s: Seq<char>) -> Seq<char>
    decreases s.len(),
{
    let t = trim(s);
    if t.len() > 0 && t.last() == ',' {
        proof {
            lemma_trim_len(s);
        }
        trim_trailing_commas(t.drop_last())
    } else {
        t
    }
}

pub proof fn lemma_trim_len(s: Seq<char>)
    ensures
        trim(s).len() <= s.len(),
{
    lemma_trim_end(s);
    lemma_trim_start(trim_end(s));
}

/// The return type text and the bounds text after the argument list: empty
/// gives neither, `+ ..` gives only bounds, `-> R + ..` gives both (split at
/// the first `+`); anything else is refused.
pub open spec fn spec_return_and_bounds(e: Seq<char>) -> Option<(Option<Seq<char>>, Seq<char>)> {
    let e = trim(e);
    if e.len() == 0 {
        Some((None, Seq::empty()))
    } else if e[0] == '+' {
        Some((None, e.skip(1)))
    } else if e.len() >= 2 && e[0] == '-' && e[1] == '>' {
        let r = trim(e.skip(2));
        match find_char(r, '+') {
            Some(k) => Some((Some(trim(r.take(k))), r.skip(k + 1))),
            None => Some((Some(r), Seq::empty())),
        }
    } else {
        None
    }
}

pub open spec fn bound_named(t: Seq<char>) -> Option<BridgeableFnTraitBound> {
    if t == "Send"@ {
        Some(BridgeableFnTraitBound::Send)
    } else if t == "Sync"@ {
        Some(BridgeableFnTraitBound::Sync)
    } else if t == "'static"@ {
        Some(BridgeableFnTraitBound::Static)
    } else {
        None
    }
}

/// The end of the `+`-separated piece that starts at `i`.
pub open spec fn piece_end(s: Seq<char>, i: int) -> int {
    match find_from(s, '+', i) {
        Some(k) => k,
        None => s.len() as int,
    }
}

/// The bounds named by the `+`-separated pieces of `s` from index `i` on;
/// blank pieces are skipped, and an unknown bound refuses the whole list.
pub open spec fn spec_bounds_from(s: Seq<char>, i: int) -> Option<Seq<BridgeableFnTraitBound>>
    decreases s.len() - i,
{
    if i < 0 || i > s.len() {
        None
    } else {
        let end = piece_end(s, i);
        proof {
            lemma_find_from(s, '+', i);
        }
        let t = trim(s.subrange(i, end));
        let rest = if end < s.len() {
            spec_bounds_from(s, end + 1)
        } else {
            Some(Seq::empty())
        };
        if t.len() == 0 {
            rest
        } else {
            match (bound_named(t), rest) {
                (Some(b), Some(r)) => Some(seq![b] + r),
                _ => None,
            }
        }
    }
}

/// The trait bounds named in `b`, such as `Send + Sync + 'static`.
pub open spec fn spec_trait_bounds(b: Seq<char>) -> Option<Seq<BridgeableFnTraitBound>> {
    let t = trim(b);
    if t.len() == 0 {
        Some(Seq::empty())
    } else {
        spec_bounds_from(t, 0)
    }
}

/// `s` with every trailing `,` removed.
pub open spec fn strip_trailing_commas(s: Seq<char>) -> Seq<char>
    decreases s.len(),
{
    if s.len() > 0 && s.last() == ',' {
        strip_trailing_commas(s.drop_last())
    } else {
        s
    }
}

/// The parsed parts of a callback type: owner, trait, bounds, the text
/// between the first `(` and the first `)`, and the return type text.
pub struct CallbackSignature {
    pub owner: BridgeableFnOwner,
    pub trait_kind: BridgeableFnTrait,
    pub trait_bounds: Vec<BridgeableFnTraitBound>,
    pub args: String,
    pub ret: Option<String>,
}

/// Whether the signature after a recognised prefix has a `(` before its first
/// `)`: the inputs on which the argument list can be cut out.
pub open spec fn callback_parens_ok(s: Seq<char>) -> bool {
    match spec_callback_prefix(s) {
        None => true,
        Some((_, _, sig)) => match (find_char(sig, '('), find_char(sig, ')')) {
            (Some(o), Some(c)) => o < c,
            _ => false,
        },
    }
}

/// What `parse_callback_signature` gives for `s`: `None` when the prefix is
/// not recognised, the end is malformed, or a bound is unknown.
pub open spec fn spec_callback_signature(s: Seq<char>) -> Option<
    (
        BridgeableFnOwner,
        BridgeableFnTrait,
        Seq<BridgeableFnTraitBound>,
        Seq<char>,
        Option<Seq<char>>,
    ),
> {
    match spec_callback_prefix(s) {
        None => None,
        Some((owner, kind, sig)) => {
            let o = find_char(sig, '(').unwrap();
            let c = find_char(sig, ')').unwrap();
            let args = sig.subrange(o + 1, c);
            let end = spec_trim_signature_end(sig.skip(c + 1));
            match spec_return_and_bounds(end) {
                None => None,
                Some((ret, bounds)) => match spec_trait_bounds(bounds) {
                    None => None,
                    Some(b) => Some(
                        (
                            owner,
                            kind,
                            b,
                            args,
                            match ret {
                                Some(r) => Some(strip_trailing_commas(r)),
                                None => None,
                            },
                        ),
                    ),
                },
            }
        },
    }
}

impl CallbackSignature {
    pub open spec fn spec_parts(&self) -> (
        BridgeableFnOwner,
        BridgeableFnTrait,
        Seq<BridgeableFnTraitBound>,
        Seq<char>,
        Option<Seq<char>>,
    ) {
        (
            self.owner,
            self.trait_kind,
            self.trait_bounds@,
            self.args@,
            match self.ret {
                Some(r) => Some(r@),
                None => None,
            },
        )
    }
}

fn callback_prefix_matches(s: &Vec<char>, p: &Vec<char>) -> (r: bool)
    ensures
        r == prefix_matches(s@, p@),
{
    if !vec_starts_with(s, p) {
        return false;
    }
    if s.len() <= p.len() {
        return false;
    }
    let c = s[p.len()];
    c == '(' || c == ' '
}

/// Recognises the callback prefix of `s` and returns the rest.
pub fn parse_callback_prefix(s: &Vec<char>) -> (r: Option<
    (BridgeableFnOwner, BridgeableFnTrait, Vec<char>),
>)
    ensures
        r matches Some((o, k, rest)) ==> spec_callback_prefix(s@) == Some((o, k, rest@)),
        r is None ==> spec_callback_prefix(s@) is None,
{
    let p1 = chars_of("Box < dyn FnOnce");
    let p2 = chars_of("Box < dyn Fn");
    let p3 = chars_of("Arc < dyn Fn");
    let p4 = chars_of("std :: sync :: Arc < dyn Fn");
    if callback_prefix_matches(s, &p1) {
        Some((BridgeableFnOwner::Box, BridgeableFnTrait::FnOnce, subvec(s, p1.len(), s.len())))
    } else if callback_prefix_matches(s, &p2) {
        Some((BridgeableFnOwner::Box, BridgeableFnTrait::Fn, subvec(s, p2.len(), s.len())))
    } else if callback_prefix_matches(s, &p3) {
        Some((BridgeableFnOwner::Arc, BridgeableFnTrait::Fn, subvec(s, p3.len(), s.len())))
    } else if callback_prefix_matches(s, &p4) {
        Some((BridgeableFnOwner::Arc, BridgeableFnTrait::Fn, subvec(s, p4.len(), s.len())))
    } else {
        None
    }
}

/// Strips surrounding whitespace, the closing `>` and trailing `,` from the
/// end of a signature.
fn trim_callback_signature_end(s: &Vec<char>) -> (r: Vec<char>)
    ensures
        r@ == spec_trim_signature_end(s@),
{
    let t = vec_trim(s);
    if t.len() > 0 && t[t.len() - 1] == '>' {
        let u = subvec(&t, 0, t.len() - 1);
        assert(u@ == t@.drop_last());
        trim_commas_end(&u)
    } else {
        trim_commas_end(&t)
    }
}

fn trim_commas_end(s: &Vec<char>) -> (r: Vec<char>)
    ensures
        r@ == trim_trailing_commas(s@),
    decreases s.len(),
{
    let t = vec_trim(s);
    if t.len() > 0 && t[t.len() - 1] == ',' {
        proof {
            lemma_trim_len(s@);
        }
        let u = subvec(&t, 0, t.len() - 1);
        assert(u@ == t@.drop_last());
        trim_commas_end(&u)
    } else {
        t
    }
}

/// Splits the signature end into return type text and bounds text.
pub fn parse_return_and_bounds(e: &Vec<char>) -> (r: Option<(Option<Vec<char>>, Vec<char>)>)
    ensures
        r matches Some((ret, b)) ==> spec_return_and_bounds(e@) == Some(
            (
                match ret {
                    Some(x) => Some(x@),
                    None => None,
                },
                b@,
            ),
        ),
        r is None ==> spec_return_and_bounds(e@) is None,
{
    let e = vec_trim(e);
    if e.len() == 0 {
        return Some((None, Vec::new()));
    }
    if e[0] == '+' {
        return Some((None, subvec(&e, 1, e.len())));
    }
    if e.len() >= 2 && e[0] == '-' && e[1] == '>' {
        let after = subvec(&e, 2, e.len());
        let r = vec_trim(&after);
        match find_char_from(&r, '+', 0) {
            Some(k) => {
                proof {
                    lemma_find_from(r@, '+', 0);
                }
                let head = subvec(&r, 0, k);
                let ret = vec_trim(&head);
                let bounds = subvec(&r, k + 1, r.len());
                Some((Some(ret), bounds))
            },
            None => Some((Some(r), Vec::new())),
        }
    } else {
        None
    }
}

fn bound_from_text(t: &Vec<char>) -> (r: Option<BridgeableFnTraitBound>)
    ensures
        r == bound_named(t@),
{
    let send = chars_of("Send");
    let sync = chars_of("Sync");
    let stat = chars_of("'static");
    if vec_eq(t, &send) {
        Some(BridgeableFnTraitBound::Send)
    } else if vec_eq(t, &sync) {
        Some(BridgeableFnTraitBound::Sync)
    } else if vec_eq(t, &stat) {
        Some(BridgeableFnTraitBound::Static)
    } else {
        None
    }
}

fn bounds_from(s: &Vec<char>, i: usize) -> (r: Option<Vec<BridgeableFnTraitBound>>)
    requires
        i <= s.len(),
    ensures
        r matches Some(v) ==> spec_bounds_from(s@, i as int) == Some(v@),
        r is None ==> spec_bounds_from(s@, i as int) is None,
    decreases s.len() - i,
{
    proof {
        lemma_find_from(s@, '+', i as int);
    }
    let end = match find_char_from(s, '+', i) {
        Some(k) => k,
        None => s.len(),
    };
    let piece = subvec(s, i, end);
    let t = vec_trim(&piece);
    let rest = if end < s.len() {
        bounds_from(s, end + 1)
    } else {
        Some(Vec::new())
    };
    if t.len() == 0 {
        rest
    } else {
        match (bound_from_text(&t), rest) {
            (Some(b), Some(r)) => {
                let mut v = Vec::new();
                v.push(b);
                let mut r = r;
                let ghost rv = r@;
                v.append(&mut r);
                assert(v@ =~= seq![b] + rv);
                Some(v)
            },
            _ => None,
        }
    }
}

/// Parses `Send + Sync + 'static`-style trait bounds.
/// The list is split at `+`, blank pieces are skipped, each piece must name
/// `Send`, `Sync` or `'static` (else `None`), and the order is kept.
pub fn parse_callback_trait_bounds(b: &Vec<char>) -> (r: Option<Vec<BridgeableFnTraitBound>>)
    ensures
        r matches Some(v) ==> spec_trait_bounds(b@) == Some(v@),
        r is None ==> spec_trait_bounds(b@) is None,
        r matches Some(v) ==> named_bounds(bound_pieces(trim(b@), 0)) == Some(v@),
        r is None ==> named_bounds(bound_pieces(trim(b@), 0)) is None,
{
    proof {
        lemma_trait_bounds_are_the_named_pieces(b@);
    }
    let t = vec_trim(b);
    if t.len() == 0 {
        Some(Vec::new())
    } else {
        bounds_from(&t, 0)
    }
}

fn strip_commas(s: &Vec<char>) -> (r: Vec<char>)
    ensures
        r@ == strip_trailing_commas(s@),
{
    let mut e = s.len();
    assert(s@.subrange(0, s.len() as int) =~= s@);
    while e > 0 && s[e - 1] == ','
        invariant
            e <= s.len(),
            strip_trailing_commas(s@) == strip_trailing_commas(s@.subrange(0, e as int)),
        decreases e,
    {
        assert(s@.subrange(0, e as int).drop_last() =~= s@.subrange(0, e - 1));
        e = e - 1;
    }
    subvec(s, 0, e)
}

/// Whether two character vectors are equal.
pub fn vec_eq(a: &Vec<char>, b: &Vec<char>) -> (r: bool)
    ensures
        r == (a@ == b@),
{
    if a.len() != b.len() {
        return false;
    }
    let mut i: usize = 0;
    while i < a.len()
        invariant
            a.len() == b.len(),
            i <= a.len(),
            forall|j: int| 0 <= j < i ==> a@[j] == b@[j],
        decreases a.len() - i,
    {
        if a[i] != b[i] {
            return false;
        }
        i = i + 1;
    }
    assert(a@ =~= b@);
    true
}

/// Parses the printed tokens of a callback type such as
/// `Box < dyn FnOnce (u8) -> u8 + Send >` into its parts.
pub fn parse_callback_signature(string: &str) -> (r: Option<CallbackSignature>)
    requires
        callback_parens_ok(string@),
    ensures
        r matches Some(sig) ==> spec_callback_signature(string@) == Some(sig.spec_parts()),
        r is None ==> spec_callback_signature(string@) is None,
{
    let s = chars_of(string);
    let (owner, trait_kind, signature) = match parse_callback_prefix(&s) {
        Some(p) => p,
        None => return None,
    };
    proof {
        lemma_find_from(signature@, '(', 0);
        lemma_find_from(signature@, ')', 0);
    }
    let open_parens = match find_char_from(&signature, '(', 0) {
        Some(k) => k,
        None => return None,
    };
    let closing_parens = match find_char_from(&signature, ')', 0) {
        Some(k) => k,
        None => return None,
    };
    let args = subvec(&signature, open_parens + 1, closing_parens);
    let after = subvec(&signature, closing_parens + 1, signature.len());
    assert(after@ == signature@.skip(closing_parens + 1));
    let signature_end = trim_callback_signature_end(&after);
    let (ret, bounds) = match parse_return_and_bounds(&signature_end) {
        Some(p) => p,
        None => return None,
    };
    let trait_bounds = match parse_callback_trait_bounds(&bounds) {
        Some(b) => b,
        None => return None,
    };
    let ret = match ret {
        Some(r) => {
            let stripped = strip_commas(&r);
            Some(string_from_chars(&stripped))
        },
        None => None,
    };
    Some(CallbackSignature { owner, trait_kind, trait_bounds, args: string_from_chars(&args), ret })
}

/// Whether `string` is one of the inputs `parse_callback_signature` accepts.
pub fn check_callback_parens(string: &str) -> (r: bool)
    ensures
        r == callback_parens_ok(string@),
{
    let s = chars_of(string);
    match parse_callback_prefix(&s) {
        None => true,
        Some((_, _, signature)) => {
            match (find_char_from(&signature, '(', 0), find_char_from(&signature, ')', 0)) {
                (Some(o), Some(c)) => o < c,
                _ => false,
            }
        },
    }
}

/// Law: `Arc<dyn FnOnce(..)>` is not a supported callback type, since an
/// `FnOnce` must be consumed when called and an `Arc` is shared.
pub proof fn lemma_arc_fn_once_is_refused(s: Seq<char>)
    requires
        starts_with(s, "Arc < dyn FnOnce"@) || starts_with(s, "std :: sync :: Arc < dyn FnOnce"@),
    ensures
        spec_callback_prefix(s) is None,
        spec_callback_signature(s) is None,
{
    reveal_strlit("Arc < dyn FnOnce");
    reveal_strlit("std :: sync :: Arc < dyn FnOnce");
    reveal_strlit("Box < dyn FnOnce");
    reveal_strlit("Box < dyn Fn");
    reveal_strlit("Arc < dyn Fn");
    reveal_strlit("std :: sync :: Arc < dyn Fn");
    if starts_with(s, "Arc < dyn FnOnce"@) {
        let p = "Arc < dyn FnOnce"@;
        assert(s.subrange(0, 16) == p);
        assert(s[0] == s.subrange(0, 16)[0]);
        assert(s[3] == s.subrange(0, 16)[3]);
        assert(s[12] == s.subrange(0, 16)[12]);
    } else {
        let p = "std :: sync :: Arc < dyn FnOnce"@;
        assert(s.subrange(0, 31) == p);
        assert(s[0] == s.subrange(0, 31)[0]);
        assert(s[3] == s.subrange(0, 31)[3]);
        assert(s[27] == s.subrange(0, 31)[27]);
    }
}

/// Law: a shared (`Arc`) callback is always an `Fn`, and a parsed callback
/// keeps the owner and trait its prefix names.
pub proof fn lemma_arc_callbacks_are_fn(s: Seq<char>)
    ensures
        spec_callback_signature(s) matches Some((owner, kind, _, _, _)) ==> spec_callback_prefix(s)
            matches Some((o, k, _)) && o == owner && k == kind && (owner == BridgeableFnOwner::Arc
            ==> kind == BridgeableFnTrait::Fn),
{
}


/// The recognised prefixes, each with the owner and trait it names.
pub open spec fn names_callback(p: Seq<char>, o: BridgeableFnOwner, k: BridgeableFnTrait) -> bool {
    let boxed = o == BridgeableFnOwner::Box;
    let shared = o == BridgeableFnOwner::Arc;
    let once = k == BridgeableFnTrait::FnOnce;
    let many = k == BridgeableFnTrait::Fn;
    ||| p == "Box < dyn FnOnce"@ && boxed && once
    ||| p == "Box < dyn Fn"@ && boxed && many
    ||| p == "Arc < dyn Fn"@ && shared && many
    ||| p == "std :: sync :: Arc < dyn Fn"@ && shared && many
}

/// A recognised callback type is one of the prefixes followed by `(` or a
/// space, and the signature is what follows the prefix.
pub proof fn lemma_callback_prefix_shape(s: Seq<char>)
    ensures
        spec_callback_prefix(s) matches Some((o, k, rest)) ==> {
            let p = s.take(s.len() - rest.len());
            &&& rest.len() > 0
            &&& (rest[0] == '(' || rest[0] == ' ')
            &&& names_callback(p, o, k)
            &&& s == p + rest
        },
{
    if let Some((o, k, rest)) = spec_callback_prefix(s) {
        let p = s.take(s.len() - rest.len());
        assert(s == p + rest);
        assert(p == s.subrange(0, p.len() as int));
    }
}

/// `FnMut` is not a supported callback trait: a prefix must be followed by
/// `(` or a space, so `Box<dyn FnMut ..>` is not read as `Box<dyn Fn ..>`.
pub proof fn lemma_fn_mut_is_refused(s: Seq<char>)
    requires
        starts_with(s, "Box < dyn FnMut"@),
    ensures
        spec_callback_prefix(s) is None,
        spec_callback_signature(s) is None,
{
    reveal_strlit("Box < dyn FnMut");
    reveal_strlit("Box < dyn FnOnce");
    reveal_strlit("Box < dyn Fn");
    reveal_strlit("Arc < dyn Fn");
    reveal_strlit("std :: sync :: Arc < dyn Fn");
    assert(s.subrange(0, 15) == "Box < dyn FnMut"@);
    assert(s[0] == s.subrange(0, 15)[0]);
    assert(s[3] == s.subrange(0, 15)[3]);
    assert(s[12] == s.subrange(0, 15)[12]);
}

/// The text after the argument list has exactly four readings: nothing;
/// `+` and bounds; `->`, a return type up to the first `+` and the bounds
/// after it; anything else is refused.
pub proof fn lemma_return_and_bounds_cases(e: Seq<char>)
    ensures
        ({
            let s = trim(e);
            &&& s.len() == 0 ==> spec_return_and_bounds(e) == Some(
                (None::<Seq<char>>, Seq::<char>::empty()),
            )
            &&& s.len() > 0 && s[0] == '+' ==> spec_return_and_bounds(e) == Some(
                (None::<Seq<char>>, s.skip(1)),
            )
            &&& s.len() >= 2 && s[0] == '-' && s[1] == '>' ==> {
                let r = trim(s.skip(2));
                match spec_return_and_bounds(e) {
                    Some((Some(ret), b)) => {
                        ||| exists|k: int|
                            0 <= k < r.len() && r[k] == '+' && (forall|j: int|
                                0 <= j < k ==> r[j] != '+') && ret == trim(r.take(k)) && b == r.skip(
                                k + 1,
                            )
                        ||| (forall|j: int| 0 <= j < r.len() ==> r[j] != '+') && ret == r && b.len()
                            == 0
                    },
                    _ => false,
                }
            }
            &&& !(s.len() == 0 || s[0] == '+' || (s.len() >= 2 && s[0] == '-' && s[1] == '>'))
                ==> spec_return_and_bounds(e) is None
        }),
{
    let s = trim(e);
    if s.len() >= 2 && s[0] == '-' && s[1] == '>' {
        let r = trim(s.skip(2));
        lemma_find_from(r, '+', 0);
    }
}

/// The trimmed, non-blank `+`-separated pieces of `s` from `i`, in order.
pub open spec fn bound_pieces(s: Seq<char>, i: int) -> Seq<Seq<char>>
    decreases s.len() - i,
{
    if i < 0 || i > s.len() {
        Seq::empty()
    } else {
        let end = piece_end(s, i);
        proof {
            lemma_find_from(s, '+', i);
        }
        let t = trim(s.subrange(i, end));
        let rest = if end < s.len() {
            bound_pieces(s, end + 1)
        } else {
            Seq::empty()
        };
        if t.len() == 0 {
            rest
        } else {
            seq![t] + rest
        }
    }
}

/// The bounds named by `pieces`, in order, or `None` when one of them names
/// no known bound.
pub open spec fn named_bounds(pieces: Seq<Seq<char>>) -> Option<Seq<BridgeableFnTraitBound>> {
    if forall|k: int| 0 <= k < pieces.len() ==> #[trigger] bound_named(pieces[k]) is Some {
        Some(pieces.map_values(|p: Seq<char>| bound_named(p).unwrap()))
    } else {
        None
    }
}

proof fn lemma_bounds_from_pieces(s: Seq<char>, i: int)
    requires
        0 <= i <= s.len(),
    ensures
        spec_bounds_from(s, i) == named_bounds(bound_pieces(s, i)),
    decreases s.len() - i,
{
    lemma_find_from(s, '+', i);
    let end = piece_end(s, i);
    let t = trim(s.subrange(i, end));
    let rest = bound_pieces(s, i);
    if end < s.len() {
        lemma_bounds_from_pieces(s, end + 1);
    }
    let tail = if end < s.len() {
        bound_pieces(s, end + 1)
    } else {
        Seq::empty()
    };
    if end >= s.len() {
        assert(named_bounds(tail) == Some(Seq::<BridgeableFnTraitBound>::empty())) by {
            assert(tail.map_values(|p: Seq<char>| bound_named(p).unwrap()) =~= Seq::<
                BridgeableFnTraitBound,
            >::empty());
        }
    }
    if t.len() > 0 {
        let all = seq![t] + tail;
        assert(all[0] == t);
        assert forall|k: int| 0 <= k < tail.len() implies all[k + 1] == tail[k] by {}
        if bound_named(t) is Some && named_bounds(tail) is Some {
            assert forall|k: int| 0 <= k < all.len() implies #[trigger] bound_named(all[k]) is Some by {
                if k > 0 {
                    assert(all[k] == tail[k - 1]);
                }
            }
            assert(all.map_values(|p: Seq<char>| bound_named(p).unwrap()) =~= seq![
                bound_named(t).unwrap(),
            ] + tail.map_values(|p: Seq<char>| bound_named(p).unwrap()));
        } else if bound_named(t) is None {
            assert(bound_named(all[0]) is None);
        } else {
            let k = choose|k: int| 0 <= k < tail.len() && !(#[trigger] bound_named(tail[k]) is Some);
            assert(bound_named(all[k + 1]) is None);
        }
    }
}

/// The trait bounds of a callback: the list is split at `+`, blank pieces
/// are skipped, each piece must name `Send`, `Sync` or `'static` (else the
/// whole list is refused), and the bounds keep the order of the pieces.
pub proof fn lemma_trait_bounds_are_the_named_pieces(b: Seq<char>)
    ensures
        spec_trait_bounds(b) == named_bounds(bound_pieces(trim(b), 0)),
{
    let t = trim(b);
    lemma_bounds_from_pieces(t, 0);
    if t.len() == 0 {
        lemma_find_from(t, '+', 0);
        assert(trim(t.subrange(0, 0)).len() == 0) by {
            assert(t.subrange(0, 0) =~= Seq::<char>::empty());
            lemma_trim_len(t.subrange(0, 0));
        }
        assert(bound_pieces(t, 0) =~= Seq::<Seq<char>>::empty());
        assert(Seq::<Seq<char>>::empty().map_values(|p: Seq<char>| bound_named(p).unwrap()) =~= Seq::<
            BridgeableFnTraitBound,
        >::empty());
    }
}

} // verus!
