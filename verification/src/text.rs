//! Character-level helpers over `String`/`&str`, stated over `Seq<char>`.
use vstd::prelude::*;

verus! {

/// The characters of a string slice, in order.
pub fn chars_of(s: &str) -> (r: Vec<char>)
    ensures
        r@ == s@,
{
    let n = s.unicode_len();
    let mut r: Vec<char> = Vec::new();
    let mut i: usize = 0;
    while i < n
        invariant
            n == s@.len(),
            i <= n,
            r@ == s@.subrange(0, i as int),
        decreases n - i,
    {
        r.push(s.get_char(i));
        i = i + 1;
    }
    r
}

/// Appends one character: wraps `String::push`.
#[verifier::external_body]
pub fn push_char(s: &mut String, c: char)
    ensures
        final(s)@ == old(s)@.push(c),
{
    s.push(c);
}

/// Appends a string slice.
pub fn push_str(s: &mut String, t: &str)
    ensures
        final(s)@ == old(s)@ + t@,
{
    s.append(t);
}

/// The string holding the given characters.
pub fn string_from_chars(cs: &Vec<char>) -> (r: String)
    ensures
        r@ == cs@,
{
    let mut r = String::new();
    let mut i: usize = 0;
    while i < cs.len()
        invariant
            i <= cs.len(),
            r@ == cs@.subrange(0, i as int),
        decreases cs.len() - i,
    {
        push_char(&mut r, cs[i]);
        i = i + 1;
        assert(r@ =~= cs@.subrange(0, i as int));
    }
    assert(r@ =~= cs@);
    r
}

/// Whether two string slices hold the same characters.
pub fn str_eq(a: &str, b: &str) -> (r: bool)
    ensures
        r == (a@ == b@),
{
    let n = a.unicode_len();
    let m = b.unicode_len();
    if n != m {
        return false;
    }
    let mut i: usize = 0;
    while i < n
        invariant
            n == a@.len(),
            m == b@.len(),
            n == m,
            i <= n,
            forall|j: int| 0 <= j < i ==> a@[j] == b@[j],
        decreases n - i,
    {
        if a.get_char(i) != b.get_char(i) {
            return false;
        }
        i = i + 1;
    }
    assert(a@ =~= b@);
    true
}

/// The decimal digit character of `d < 10`.
pub open spec fn digit_char(d: nat) -> char {
    if d == 0 { '0' }
    else if d == 1 { '1' }
    else if d == 2 { '2' }
    else if d == 3 { '3' }
    else if d == 4 { '4' }
    else if d == 5 { '5' }
    else if d == 6 { '6' }
    else if d == 7 { '7' }
    else if d == 8 { '8' }
    else { '9' }
}

/// The decimal spelling of a natural number, as `format!("{}", n)` writes it.
pub open spec fn decimal(n: nat) -> Seq<char>
    decreases n,
{
    if n < 10 {
        seq![digit_char(n)]
    } else {
        decimal(n / 10).push(digit_char(n % 10))
    }
}

fn digit_of(d: usize) -> (c: char)
    requires
        d < 10,
    ensures
        c == digit_char(d as nat),
{
    if d == 0 { '0' }
    else if d == 1 { '1' }
    else if d == 2 { '2' }
    else if d == 3 { '3' }
    else if d == 4 { '4' }
    else if d == 5 { '5' }
    else if d == 6 { '6' }
    else if d == 7 { '7' }
    else if d == 8 { '8' }
    else { '9' }
}

/// Appends the decimal spelling of `n`.
pub fn push_decimal(s: &mut String, n: usize)
    ensures
        final(s)@ == old(s)@ + decimal(n as nat),
    decreases n,
{
    if n < 10 {
        push_char(s, digit_of(n));
        assert(s@ =~= old(s)@ + decimal(n as nat));
    } else {
        push_decimal(s, n / 10);
        push_char(s, digit_of(n % 10));
        assert(s@ =~= old(s)@ + decimal(n as nat));
    }
}

/// Unicode `White_Space`, as `char::is_whitespace` defines it.
pub open spec fn is_whitespace(c: char) -> bool {
    ||| ('\t' <= c && c <= '\r')
    ||| c == ' '
    ||| c == '\u{85}'
    ||| c == '\u{a0}'
    ||| c == '\u{1680}'
    ||| ('\u{2000}' <= c && c <= '\u{200a}')
    ||| c == '\u{2028}'
    ||| c == '\u{2029}'
    ||| c == '\u{202f}'
    ||| c == '\u{205f}'
    ||| c == '\u{3000}'
}

pub fn char_is_whitespace(c: char) -> (r: bool)
    ensures
        r == is_whitespace(c),
{
    ('\t' <= c && c <= '\r') || c == ' ' || c == '\u{85}' || c == '\u{a0}' || c == '\u{1680}' || (
    '\u{2000}' <= c && c <= '\u{200a}') || c == '\u{2028}' || c == '\u{2029}' || c == '\u{202f}'
        || c == '\u{205f}' || c == '\u{3000}'
}

/// `str::trim_end`: drops trailing whitespace.
pub open spec fn trim_end(s: Seq<char>) -> Seq<char>
    decreases s.len(),
{
    if s.len() > 0 && is_whitespace(s.last()) {
        trim_end(s.drop_last())
    } else {
        s
    }
}

/// `str::trim_start`: drops leading whitespace.
pub open spec fn trim_start(s: Seq<char>) -> Seq<char>
    decreases s.len(),
{
    if s.len() > 0 && is_whitespace(s[0]) {
        trim_start(s.drop_first())
    } else {
        s
    }
}

/// `str::trim`: drops leading and trailing whitespace.
pub open spec fn trim(s: Seq<char>) -> Seq<char> {
    trim_start(trim_end(s))
}

pub open spec fn starts_with(s: Seq<char>, p: Seq<char>) -> bool {
    p.len() <= s.len() && s.subrange(0, p.len() as int) == p
}

/// The first index at or after `i` holding `c`.
pub open spec fn find_from(s: Seq<char>, c: char, i: int) -> Option<int>
    decreases s.len() - i,
{
    if i < 0 || i >= s.len() {
        None
    } else if s[i] == c {
        Some(i)
    } else {
        find_from(s, c, i + 1)
    }
}

/// `str::find` with a one-character pattern.
pub open spec fn find_char(s: Seq<char>, c: char) -> Option<int> {
    find_from(s, c, 0)
}

pub proof fn lemma_find_from(s: Seq<char>, c: char, i: int)
    ensures
        find_from(s, c, i) matches Some(k) ==> 0 <= i <= k < s.len() && s[k] == c && forall|
            j: int,
        | i <= j < k ==> s[j] != c,
        find_from(s, c, i) is None ==> forall|j: int| 0 <= i <= j < s.len() ==> s[j] != c,
    decreases s.len() - i,
{
    if 0 <= i < s.len() && s[i] != c {
        lemma_find_from(s, c, i + 1);
    }
}

/// The first `c` of `s` is at `m`.
pub proof fn lemma_find_first(s: Seq<char>, c: char, m: int)
    requires
        0 <= m < s.len(),
        s[m] == c,
        forall|j: int| 0 <= j < m ==> s[j] != c,
    ensures
        find_char(s, c) == Some(m),
{
    lemma_find_from(s, c, 0);
}

/// `c` does not occur in `s`.
pub proof fn lemma_find_absent(s: Seq<char>, c: char)
    requires
        forall|j: int| 0 <= j < s.len() ==> s[j] != c,
    ensures
        find_char(s, c) is None,
{
    lemma_find_from(s, c, 0);
}

/// Text that neither starts nor ends with whitespace is its own trim, also
/// after one leading space.
pub proof fn lemma_trim_after_space(y: Seq<char>)
    requires
        y.len() > 0,
        !is_whitespace(y[0]),
        !is_whitespace(y.last()),
    ensures
        trim(y) == y,
        trim(" "@ + y) == y,
{
    reveal_strlit(" ");
    let s = " "@ + y;
    assert(s.last() == y.last());
    assert(trim_end(s) == s);
    assert(s.drop_first() =~= y);
    assert(trim_start(y) == y);
    assert(trim_end(y) == y);
    assert(trim_start(s) == trim_start(y));
}

/// Text that neither starts nor ends with whitespace is the trim of itself
/// followed by one space, and of itself between two spaces.
pub proof fn lemma_trim_before_space(y: Seq<char>)
    requires
        y.len() > 0,
        !is_whitespace(y[0]),
        !is_whitespace(y.last()),
    ensures
        trim(y + " "@) == y,
        trim(" "@ + y + " "@) == y,
{
    reveal_strlit(" ");
    lemma_trim_after_space(y);
    let s = y + " "@;
    assert(s.drop_last() =~= y);
    assert(trim_end(s) == trim_end(y));
    let u = " "@ + y + " "@;
    assert(u.drop_last() =~= " "@ + y);
    assert(trim_end(u) == trim_end(" "@ + y));
    assert((" "@ + y).last() == y.last());
    assert(trim_end(" "@ + y) == " "@ + y);
}

/// `parts` concatenated is its first part followed by the others.
pub proof fn lemma_concat_front(parts: Seq<Seq<char>>)
    requires
        parts.len() > 0,
    ensures
        concat(parts) == parts[0] + concat(parts.drop_first()),
    decreases parts.len(),
{
    if parts.len() == 1 {
        assert(parts.drop_first() =~= Seq::<Seq<char>>::empty());
        assert(parts.drop_last() =~= Seq::<Seq<char>>::empty());
        assert(concat(parts.drop_last()) == Seq::<char>::empty());
        assert(parts.last() == parts[0]);
        assert(concat(parts) =~= parts[0]);
        assert(parts[0] + Seq::<char>::empty() =~= parts[0]);
    } else {
        lemma_concat_front(parts.drop_last());
        assert(parts.drop_last()[0] == parts[0]);
        assert(parts.drop_last().drop_first() =~= parts.drop_first().drop_last());
        assert(parts.drop_first().last() == parts.last());
        assert(concat(parts.drop_first()) == concat(parts.drop_first().drop_last())
            + parts.drop_first().last());
        assert(concat(parts) =~= parts[0] + concat(parts.drop_first()));
    }
}

/// `c` occurs in `join(parts, sep)` only where it occurs in a part or in `sep`.
pub proof fn lemma_join_avoids(parts: Seq<Seq<char>>, sep: Seq<char>, c: char)
    requires
        forall|i: int, j: int| 0 <= i < parts.len() && 0 <= j < parts[i].len() ==> parts[i][j] != c,
        forall|j: int| 0 <= j < sep.len() ==> sep[j] != c,
    ensures
        forall|j: int| 0 <= j < join(parts, sep).len() ==> join(parts, sep)[j] != c,
    decreases parts.len(),
{
    if parts.len() > 1 {
        let init = parts.drop_last();
        assert forall|i: int, j: int| 0 <= i < init.len() && 0 <= j < init[i].len() implies init[i][j]
            != c by {
            assert(init[i] == parts[i]);
        }
        lemma_join_avoids(init, sep, c);
        let a = join(init, sep);
        let l = parts.last();
        assert forall|j: int| 0 <= j < join(parts, sep).len() implies join(parts, sep)[j] != c by {
            if j < a.len() {
                assert(join(parts, sep)[j] == a[j]);
            } else if j < a.len() + sep.len() {
                assert(join(parts, sep)[j] == sep[j - a.len()]);
            } else {
                assert(join(parts, sep)[j] == l[j - a.len() - sep.len()]);
            }
        }
    } else if parts.len() == 1 {
        assert(join(parts, sep) == parts[0]);
    }
}

pub proof fn lemma_trim_end(s: Seq<char>)
    ensures
        trim_end(s).len() <= s.len(),
        trim_end(s) == s.subrange(0, trim_end(s).len() as int),
        trim_end(s).len() > 0 ==> !is_whitespace(trim_end(s).last()),
        forall|j: int| trim_end(s).len() <= j < s.len() ==> is_whitespace(#[trigger] s[j]),
    decreases s.len(),
{
    if s.len() > 0 && is_whitespace(s.last()) {
        lemma_trim_end(s.drop_last());
        assert(trim_end(s) == s.subrange(0, trim_end(s).len() as int));
        assert forall|j: int| trim_end(s).len() <= j < s.len() implies is_whitespace(
            #[trigger] s[j],
        ) by {
            if j < s.len() - 1 {
                assert(s[j] == s.drop_last()[j]);
            }
        }
    } else {
        assert(s == s.subrange(0, s.len() as int));
    }
}

pub proof fn lemma_trim_start(s: Seq<char>)
    ensures
        trim_start(s).len() <= s.len(),
        trim_start(s) == s.subrange(s.len() - trim_start(s).len(), s.len() as int),
        trim_start(s).len() > 0 ==> !is_whitespace(trim_start(s)[0]),
        forall|j: int|
            0 <= j < s.len() - trim_start(s).len() ==> is_whitespace(#[trigger] s[j]),
    decreases s.len(),
{
    if s.len() > 0 && is_whitespace(s[0]) {
        lemma_trim_start(s.drop_first());
        let t = trim_start(s.drop_first());
        assert(t == s.drop_first().subrange(s.len() - 1 - t.len(), s.len() - 1));
        assert(s.drop_first().subrange(s.len() - 1 - t.len(), s.len() - 1) =~= s.subrange(
            s.len() - t.len(),
            s.len() as int,
        ));
        assert forall|j: int| 0 <= j < s.len() - t.len() implies is_whitespace(#[trigger] s[j]) by {
            if j > 0 {
                assert(s[j] == s.drop_first()[j - 1]);
            }
        }
    } else {
        assert(s == s.subrange(0, s.len() as int));
    }
}

/// The characters `v[a..b]`.
pub fn subvec(v: &Vec<char>, a: usize, b: usize) -> (r: Vec<char>)
    requires
        a <= b <= v.len(),
    ensures
        r@ == v@.subrange(a as int, b as int),
{
    let mut r: Vec<char> = Vec::new();
    let mut i = a;
    while i < b
        invariant
            a <= i <= b <= v.len(),
            r@ == v@.subrange(a as int, i as int),
        decreases b - i,
    {
        r.push(v[i]);
        i = i + 1;
        assert(r@ =~= v@.subrange(a as int, i as int));
    }
    r
}

/// The first index at or after `from` holding `c`.
pub fn find_char_from(v: &Vec<char>, c: char, from: usize) -> (r: Option<usize>)
    ensures
        r matches Some(k) ==> find_from(v@, c, from as int) == Some(k as int),
        r is None ==> find_from(v@, c, from as int) is None,
{
    let mut i = from;
    while i < v.len()
        invariant
            from <= i,
            find_from(v@, c, from as int) == find_from(v@, c, i as int),
        decreases v.len() - i,
    {
        if v[i] == c {
            return Some(i);
        }
        i = i + 1;
    }
    None
}

pub fn vec_trim_end(v: &Vec<char>) -> (r: Vec<char>)
    ensures
        r@ == trim_end(v@),
{
    let mut e = v.len();
    assert(v@.subrange(0, v.len() as int) =~= v@);
    while e > 0 && char_is_whitespace(v[e - 1])
        invariant
            e <= v.len(),
            trim_end(v@) == trim_end(v@.subrange(0, e as int)),
        decreases e,
    {
        assert(v@.subrange(0, e as int).drop_last() =~= v@.subrange(0, e - 1));
        e = e - 1;
    }
    subvec(v, 0, e)
}

pub fn vec_trim_start(v: &Vec<char>) -> (r: Vec<char>)
    ensures
        r@ == trim_start(v@),
{
    let mut b: usize = 0;
    assert(v@.subrange(0, v.len() as int) =~= v@);
    while b < v.len() && char_is_whitespace(v[b])
        invariant
            b <= v.len(),
            trim_start(v@) == trim_start(v@.subrange(b as int, v.len() as int)),
        decreases v.len() - b,
    {
        assert(v@.subrange(b as int, v.len() as int).drop_first() =~= v@.subrange(
            b + 1,
            v.len() as int,
        ));
        b = b + 1;
    }
    subvec(v, b, v.len())
}

pub fn vec_trim(v: &Vec<char>) -> (r: Vec<char>)
    ensures
        r@ == trim(v@),
{
    let t = vec_trim_end(v);
    vec_trim_start(&t)
}

pub fn vec_starts_with(v: &Vec<char>, p: &Vec<char>) -> (r: bool)
    ensures
        r == starts_with(v@, p@),
{
    if p.len() > v.len() {
        return false;
    }
    let mut i: usize = 0;
    while i < p.len()
        invariant
            p.len() <= v.len(),
            i <= p.len(),
            forall|j: int| 0 <= j < i ==> v@[j] == p@[j],
        decreases p.len() - i,
    {
        if v[i] != p[i] {
            assert(v@.subrange(0, p.len() as int)[i as int] != p@[i as int]);
            return false;
        }
        i = i + 1;
    }
    assert(v@.subrange(0, p.len() as int) =~= p@);
    true
}

/// The views of a sequence of strings.
pub open spec fn views(v: Seq<String>) -> Seq<Seq<char>> {
    v.map_values(|s: String| s@)
}

/// `parts` joined with `sep` between neighbours, as `[String]::join` does.
pub open spec fn join(parts: Seq<Seq<char>>, sep: Seq<char>) -> Seq<char>
    decreases parts.len(),
{
    if parts.len() == 0 {
        Seq::empty()
    } else if parts.len() == 1 {
        parts[0]
    } else {
        join(parts.drop_last(), sep) + sep + parts.last()
    }
}

/// `parts` concatenated.
pub open spec fn concat(parts: Seq<Seq<char>>) -> Seq<char>
    decreases parts.len(),
{
    if parts.len() == 0 {
        Seq::empty()
    } else {
        concat(parts.drop_last()) + parts.last()
    }
}

/// Joins the strings with `sep` between neighbours.
pub fn join_strings(parts: &Vec<String>, sep: &str) -> (r: String)
    ensures
        r@ == join(views(parts@), sep@),
{
    let mut r = String::new();
    let mut i: usize = 0;
    while i < parts.len()
        invariant
            i <= parts@.len(),
            r@ == join(views(parts@.take(i as int)), sep@),
        decreases parts.len() - i,
    {
        let ghost before = parts@.take(i as int);
        proof {
            assert(views(parts@.take(i + 1)).drop_last() =~= views(before));
            assert(views(parts@.take(i + 1)).last() == parts@[i as int]@);
        }
        if i > 0 {
            push_str(&mut r, sep);
        } else {
            assert(views(parts@.take(1)) =~= seq![parts@[0]@]);
        }
        push_str(&mut r, parts[i].as_str());
        i = i + 1;
        assert(r@ =~= join(views(parts@.take(i as int)), sep@));
    }
    assert(parts@.take(parts@.len() as int) =~= parts@);
    r
}

/// Concatenates the strings.
pub fn concat_strings(parts: &Vec<String>) -> (r: String)
    ensures
        r@ == concat(views(parts@)),
{
    let mut r = String::new();
    let mut i: usize = 0;
    while i < parts.len()
        invariant
            i <= parts@.len(),
            r@ == concat(views(parts@.take(i as int))),
        decreases parts.len() - i,
    {
        proof {
            assert(views(parts@.take(i + 1)).drop_last() =~= views(parts@.take(i as int)));
        }
        push_str(&mut r, parts[i].as_str());
        i = i + 1;
    }
    assert(parts@.take(parts@.len() as int) =~= parts@);
    r
}

/// The string `"arg<i>"` naming the `i`-th callback argument.
pub open spec fn arg_name(i: nat) -> Seq<char> {
    "arg"@ + decimal(i)
}

pub fn make_arg_name(i: usize) -> (r: String)
    ensures
        r@ == arg_name(i as nat),
{
    let mut r = String::from_str("arg");
    push_decimal(&mut r, i);
    r
}

} // verus!
