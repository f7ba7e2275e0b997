//! Conversion of Swift (lower camel case) names to Rust `snake_case`.
use vstd::prelude::*;
use crate::text::{chars_of, push_char};

verus! {

pub open spec fn is_ascii_upper(c: char) -> bool {
    'A' <= c && c <= 'Z'
}

pub open spec fn is_ascii_lower(c: char) -> bool {
    'a' <= c && c <= 'z'
}

pub open spec fn is_ascii_digit(c: char) -> bool {
    '0' <= c && c <= '9'
}

/// ASCII lower-casing of one character; other characters are kept.
pub open spec fn ascii_lower(c: char) -> char {
    if is_ascii_upper(c) {
        ((c as u32) + 32) as char
    } else {
        c
    }
}

/// Whether the upper-case letter at `i` starts a new word: it is not the first
/// character, does not follow `_`, and either follows a lower-case letter or a
/// digit, or is followed by a lower-case letter (the last capital of an acronym).
pub open spec fn starts_word(s: Seq<char>, i: int) -> bool {
    &&& i > 0
    &&& s[i - 1] != '_'
    &&& (is_ascii_lower(s[i - 1]) || is_ascii_digit(s[i - 1]) || (i + 1 < s.len()
        && is_ascii_lower(s[i + 1])))
}

/// What the character at `i` becomes in snake case.
pub open spec fn snake_piece(s: Seq<char>, i: int) -> Seq<char> {
    if is_ascii_upper(s[i]) {
        if starts_word(s, i) {
            seq!['_', ascii_lower(s[i])]
        } else {
            seq![ascii_lower(s[i])]
        }
    } else {
        seq![s[i]]
    }
}

/// The snake-case rendering of the first `n` characters of `s`.
pub open spec fn snake_prefix(s: Seq<char>, n: int) -> Seq<char>
    decreases n,
{
    if n <= 0 {
        Seq::empty()
    } else {
        snake_prefix(s, n - 1) + snake_piece(s, n - 1)
    }
}

/// The snake-case rendering of `s`.
pub open spec fn snake_case(s: Seq<char>) -> Seq<char> {
    snake_prefix(s, s.len() as int)
}

/// Converts a Swift-style name to Rust `snake_case`: each upper-case ASCII
/// letter is lower-cased, and an underscore is put before it when it starts a
/// new word (see `starts_word`).
pub fn to_snake_case(input: &str) -> (r: String)
    ensures
        r@ == snake_case(input@),
{
    let chars = chars_of(input);
    let n = chars.len();
    let mut snake = String::new();
    let mut idx: usize = 0;
    while idx < n
        invariant
            n == chars@.len(),
            chars@ == input@,
            idx <= n,
            snake@ == snake_prefix(chars@, idx as int),
        decreases n - idx,
    {
        let ch = chars[idx];
        proof {
            assert(snake_prefix(chars@, idx + 1) == snake_prefix(chars@, idx as int)
                + snake_piece(chars@, idx as int));
        }
        if 'A' <= ch && ch <= 'Z' {
            let prev_ok = idx > 0 && chars[idx - 1] != '_' && (('a' <= chars[idx - 1] && chars[idx
                - 1] <= 'z') || ('0' <= chars[idx - 1] && chars[idx - 1] <= '9'));
            let next_lower = idx + 1 < n && 'a' <= chars[idx + 1] && chars[idx + 1] <= 'z';
            let should_insert_underscore = idx > 0 && chars[idx - 1] != '_' && (prev_ok
                || next_lower);
            if should_insert_underscore {
                push_char(&mut snake, '_');
            }
            let code: u32 = ch as u32;
            let lower_byte: u8 = (code + 32) as u8;
            let lower = lower_byte as char;
            assert(lower == ascii_lower(ch));
            push_char(&mut snake, lower);
        } else {
            push_char(&mut snake, ch);
        }
        idx = idx + 1;
        assert(snake@ =~= snake_prefix(chars@, idx as int));
    }
    snake
}

/// The characters of `s` other than `_`, in order.
pub open spec fn without_underscores(s: Seq<char>) -> Seq<char>
    decreases s.len(),
{
    if s.len() == 0 {
        s
    } else if s.last() == '_' {
        without_underscores(s.drop_last())
    } else {
        without_underscores(s.drop_last()).push(s.last())
    }
}

/// `s` with every ASCII letter lower-cased.
pub open spec fn ascii_lowercase(s: Seq<char>) -> Seq<char> {
    s.map_values(|c: char| ascii_lower(c))
}

proof fn lemma_lower_of_upper(c: char)
    requires
        is_ascii_upper(c),
    ensures
        is_ascii_lower(ascii_lower(c)),
        !is_ascii_upper(ascii_lower(c)),
        ascii_lower(c) != '_',
{
}

proof fn lemma_snake_prefix_len(s: Seq<char>, n: int)
    requires
        0 <= n <= s.len(),
    ensures
        snake_prefix(s, n).len() >= n,
    decreases n,
{
    if n > 0 {
        lemma_snake_prefix_len(s, n - 1);
    }
}

proof fn lemma_snake_prefix_no_upper(s: Seq<char>, n: int)
    requires
        0 <= n <= s.len(),
    ensures
        forall|i: int|
            0 <= i < snake_prefix(s, n).len() ==> !is_ascii_upper(#[trigger] snake_prefix(s, n)[i]),
    decreases n,
{
    if n > 0 {
        lemma_snake_prefix_no_upper(s, n - 1);
        let p = snake_prefix(s, n - 1);
        let q = snake_piece(s, n - 1);
        if is_ascii_upper(s[n - 1]) {
            lemma_lower_of_upper(s[n - 1]);
        }
        assert forall|i: int| 0 <= i < snake_prefix(s, n).len() implies !is_ascii_upper(
            #[trigger] snake_prefix(s, n)[i],
        ) by {
            if i < p.len() {
                assert(snake_prefix(s, n)[i] == p[i]);
            } else {
                assert(snake_prefix(s, n)[i] == q[i - p.len()]);
            }
        }
    }
}

/// Law: a snake-case name holds no upper-case ASCII letter.
pub proof fn lemma_snake_case_has_no_upper(s: Seq<char>)
    ensures
        forall|i: int|
            0 <= i < snake_case(s).len() ==> !is_ascii_upper(#[trigger] snake_case(s)[i]),
{
    lemma_snake_prefix_no_upper(s, s.len() as int);
}

proof fn lemma_snake_prefix_identity(s: Seq<char>, n: int)
    requires
        0 <= n <= s.len(),
        forall|i: int| 0 <= i < s.len() ==> !is_ascii_upper(#[trigger] s[i]),
    ensures
        snake_prefix(s, n) == s.subrange(0, n),
    decreases n,
{
    if n > 0 {
        lemma_snake_prefix_identity(s, n - 1);
        assert(snake_prefix(s, n) =~= s.subrange(0, n));
    } else {
        assert(snake_prefix(s, n) =~= s.subrange(0, n));
    }
}

/// Law: a name without upper-case ASCII letters is already in snake case
/// and is left unchanged.
pub proof fn lemma_snake_case_identity(s: Seq<char>)
    requires
        forall|i: int| 0 <= i < s.len() ==> !is_ascii_upper(#[trigger] s[i]),
    ensures
        snake_case(s) == s,
{
    lemma_snake_prefix_identity(s, s.len() as int);
    assert(s.subrange(0, s.len() as int) =~= s);
}

/// Law: converting to snake case twice is the same as converting once.
pub proof fn lemma_snake_case_idempotent(s: Seq<char>)
    ensures
        snake_case(snake_case(s)) == snake_case(s),
{
    lemma_snake_case_has_no_upper(s);
    lemma_snake_case_identity(snake_case(s));
}

proof fn lemma_without_underscores_add(a: Seq<char>, b: Seq<char>)
    ensures
        without_underscores(a + b) == without_underscores(a) + without_underscores(b),
    decreases b.len(),
{
    if b.len() == 0 {
        assert(a + b =~= a);
        assert(without_underscores(a) + without_underscores(b) =~= without_underscores(a));
    } else {
        lemma_without_underscores_add(a, b.drop_last());
        assert((a + b).drop_last() =~= a + b.drop_last());
        assert((a + b).last() == b.last());
        if b.last() == '_' {
        } else {
            assert(without_underscores(a + b) =~= without_underscores(a) + without_underscores(
                b,
            ));
        }
    }
}

proof fn lemma_without_underscores_single(x: char)
    ensures
        without_underscores(seq![x]) == (if x == '_' {
            Seq::<char>::empty()
        } else {
            seq![x]
        }),
{
    let s = seq![x];
    assert(s.drop_last() =~= Seq::<char>::empty());
    assert(s.last() == x);
    assert(without_underscores(Seq::<char>::empty()) == Seq::<char>::empty());
    if x != '_' {
        assert(Seq::<char>::empty().push(x) =~= seq![x]);
    }
}

proof fn lemma_snake_prefix_letters(s: Seq<char>, n: int)
    requires
        0 <= n <= s.len(),
    ensures
        without_underscores(snake_prefix(s, n)) == ascii_lowercase(
            without_underscores(s.subrange(0, n)),
        ),
    decreases n,
{
    if n == 0 {
        assert(without_underscores(s.subrange(0, 0)) =~= Seq::<char>::empty());
        assert(ascii_lowercase(Seq::<char>::empty()) =~= Seq::<char>::empty());
    } else {
        lemma_snake_prefix_letters(s, n - 1);
        let p = snake_prefix(s, n - 1);
        let q = snake_piece(s, n - 1);
        lemma_without_underscores_add(p, q);
        let t = s.subrange(0, n);
        assert(t.drop_last() =~= s.subrange(0, n - 1));
        assert(t.last() == s[n - 1]);
        let c = s[n - 1];
        let w = without_underscores(s.subrange(0, n - 1));
        if is_ascii_upper(c) {
            lemma_lower_of_upper(c);
            if starts_word(s, n - 1) {
                assert(q =~= seq!['_'] + seq![ascii_lower(c)]);
                lemma_without_underscores_add(seq!['_'], seq![ascii_lower(c)]);
                lemma_without_underscores_single('_');
                lemma_without_underscores_single(ascii_lower(c));
                assert(without_underscores(q) =~= seq![ascii_lower(c)]);
            } else {
                lemma_without_underscores_single(ascii_lower(c));
                assert(without_underscores(q) =~= seq![ascii_lower(c)]);
            }
            assert(without_underscores(t) == w.push(c));
            assert(ascii_lowercase(w.push(c)) =~= ascii_lowercase(w).push(ascii_lower(c)));
        } else {
            lemma_without_underscores_single(c);
            if c == '_' {
                assert(without_underscores(q) =~= Seq::<char>::empty());
                assert(without_underscores(t) == w);
                assert(without_underscores(snake_prefix(s, n)) =~= without_underscores(p));
            } else {
                assert(without_underscores(q) =~= seq![c]);
                assert(without_underscores(t) == w.push(c));
                assert(ascii_lower(c) == c);
                assert(ascii_lowercase(w.push(c)) =~= ascii_lowercase(w).push(c));
            }
        }
    }
}

/// Law: snake case only lower-cases ASCII letters and inserts underscores:
/// with every `_` removed from both sides, the result is the input lower-cased.
pub proof fn lemma_snake_case_keeps_letters(s: Seq<char>)
    ensures
        without_underscores(snake_case(s)) == ascii_lowercase(without_underscores(s)),
{
    lemma_snake_prefix_letters(s, s.len() as int);
    assert(s.subrange(0, s.len() as int) =~= s);
}

} // verus!
