//! Character-level helpers shared by the parsers and renderers.
use vstd::prelude::*;

verus! {

/// Appends one character to a string (`String::push`).
#[verifier::external_body]
pub fn push_char(s: &mut String, c: char)
    ensures
        final(s)@ == old(s)@.push(c),
{
    s.push(c);
}

/// The characters of a string slice, in order.
pub fn chars_of(s: &str) -> (res: Vec<char>)
    ensures
        res@ == s@,
{
    let mut res: Vec<char> = Vec::new();
    for c in it: s.chars()
        invariant
            res@ == it.seq().take(it.index() as int),
    {
        res.push(c);
    }
    res
}

/// The first index at or after `i` that holds `c`, or the length when there is none.
pub open spec fn find_from(s: Seq<char>, c: char, i: int) -> int
    decreases s.len() - i,
{
    if i >= s.len() {
        s.len() as int
    } else if s[i] == c {
        i
    } else {
        find_from(s, c, i + 1)
    }
}

/// The index just after the last `c` before position `i`, or 0 when there is none.
pub open spec fn after_last(s: Seq<char>, c: char, i: int) -> int
    decreases i,
{
    if i <= 0 {
        0
    } else if s[i - 1] == c {
        i
    } else {
        after_last(s, c, i - 1)
    }
}

pub proof fn lemma_find_from_bounds(s: Seq<char>, c: char, i: int)
    requires
        0 <= i <= s.len(),
    ensures
        i <= find_from(s, c, i) <= s.len(),
        find_from(s, c, i) < s.len() ==> s[find_from(s, c, i)] == c,
        forall|j: int| i <= j < find_from(s, c, i) ==> s[j] != c,
    decreases s.len() - i,
{
    if i < s.len() && s[i] != c {
        lemma_find_from_bounds(s, c, i + 1);
    }
}

pub proof fn lemma_after_last_bounds(s: Seq<char>, c: char, i: int)
    requires
        0 <= i <= s.len(),
    ensures
        0 <= after_last(s, c, i) <= i,
        after_last(s, c, i) > 0 ==> s[after_last(s, c, i) - 1] == c,
        forall|j: int| after_last(s, c, i) <= j < i ==> s[j] != c,
    decreases i,
{
    if i > 0 && s[i - 1] != c {
        lemma_after_last_bounds(s, c, i - 1);
    }
}

/// The position of the first `c` at or after `i` (the length when there is none).
pub fn find_char_from(s: &Vec<char>, c: char, i: usize) -> (r: usize)
    requires
        i <= s@.len(),
    ensures
        r == find_from(s@, c, i as int),
{
    let mut j = i;
    while j < s.len() && s[j] != c
        invariant
            i <= j <= s@.len(),
            find_from(s@, c, i as int) == find_from(s@, c, j as int),
        decreases s@.len() - j,
    {
        j = j + 1;
    }
    j
}

/// The position just after the last `c` before `i` (0 when there is none).
pub fn find_after_last(s: &Vec<char>, c: char, i: usize) -> (r: usize)
    requires
        i <= s@.len(),
    ensures
        r == after_last(s@, c, i as int),
{
    let mut j = i;
    while j > 0 && s[j - 1] != c
        invariant
            j <= i <= s@.len(),
            after_last(s@, c, i as int) == after_last(s@, c, j as int),
        decreases j,
    {
        j = j - 1;
    }
    j
}

/// The characters from `a` up to `b`, as a string.
pub fn substring(s: &Vec<char>, a: usize, b: usize) -> (res: String)
    requires
        a <= b <= s@.len(),
    ensures
        res@ == s@.subrange(a as int, b as int),
{
    let mut res = String::new();
    let mut i = a;
    while i < b
        invariant
            a <= i <= b <= s@.len(),
            res@ == s@.subrange(a as int, i as int),
        decreases b - i,
    {
        push_char(&mut res, s[i]);
        i = i + 1;
    }
    res
}

/// The characters of a vector, as a string.
pub fn string_of(s: &Vec<char>) -> (res: String)
    ensures
        res@ == s@,
{
    let res = substring(s, 0, s.len());
    assert(s@.subrange(0, s@.len() as int) == s@);
    res
}

/// Whether a character has the Unicode `White_Space` property, the set that
/// `char::is_whitespace` tests: tab through carriage return, space, next line,
/// no-break space, Ogham space mark, the spaces from en quad to hair space,
/// line and paragraph separators, the narrow no-break space, the medium
/// mathematical space and the ideographic space.
pub open spec fn white_space(c: char) -> bool {
    ||| '\u{9}' <= c <= '\u{d}'
    ||| c == ' '
    ||| c == '\u{85}'
    ||| c == '\u{a0}'
    ||| c == '\u{1680}'
    ||| '\u{2000}' <= c <= '\u{200a}'
    ||| c == '\u{2028}'
    ||| c == '\u{2029}'
    ||| c == '\u{202f}'
    ||| c == '\u{205f}'
    ||| c == '\u{3000}'
}

/// Tests a character for the Unicode `White_Space` property, as
/// `char::is_whitespace` does.
pub fn is_whitespace(c: char) -> (res: bool)
    ensures
        res == white_space(c),
{
    ('\u{9}' <= c && c <= '\u{d}') || c == ' ' || c == '\u{85}' || c == '\u{a0}' || c == '\u{1680}'
        || ('\u{2000}' <= c && c <= '\u{200a}') || c == '\u{2028}' || c == '\u{2029}' || c == '\u{202f}'
        || c == '\u{205f}' || c == '\u{3000}'
}

/// The first index at or after `i` that is not whitespace (the length when none).
pub open spec fn skip_ws(s: Seq<char>, i: int) -> int
    decreases s.len() - i,
{
    if i >= s.len() {
        s.len() as int
    } else if white_space(s[i]) {
        skip_ws(s, i + 1)
    } else {
        i
    }
}

/// The first index at or after `i` that is whitespace (the length when none).
pub open spec fn token_end(s: Seq<char>, i: int) -> int
    decreases s.len() - i,
{
    if i >= s.len() {
        s.len() as int
    } else if white_space(s[i]) {
        i
    } else {
        token_end(s, i + 1)
    }
}

/// The bounds of the `n`-th (from 0) whitespace-separated token at or after `i`.
pub open spec fn nth_token(s: Seq<char>, i: int, n: nat) -> Option<(int, int)>
    decreases n,
{
    let a = skip_ws(s, i);
    if a >= s.len() {
        None
    } else if n == 0 {
        Some((a, token_end(s, a)))
    } else {
        nth_token(s, token_end(s, a), (n - 1) as nat)
    }
}

pub proof fn lemma_skip_ws_bounds(s: Seq<char>, i: int)
    requires
        0 <= i <= s.len(),
    ensures
        i <= skip_ws(s, i) <= s.len(),
    decreases s.len() - i,
{
    if i < s.len() && white_space(s[i]) {
        lemma_skip_ws_bounds(s, i + 1);
    }
}

pub proof fn lemma_token_end_bounds(s: Seq<char>, i: int)
    requires
        0 <= i <= s.len(),
    ensures
        i <= token_end(s, i) <= s.len(),
    decreases s.len() - i,
{
    if i < s.len() && !white_space(s[i]) {
        lemma_token_end_bounds(s, i + 1);
    }
}

fn skip_ws_exec(s: &Vec<char>, i: usize) -> (r: usize)
    requires
        i <= s@.len(),
    ensures
        r == skip_ws(s@, i as int),
{
    let mut j = i;
    while j < s.len() && is_whitespace(s[j])
        invariant
            i <= j <= s@.len(),
            skip_ws(s@, i as int) == skip_ws(s@, j as int),
        decreases s@.len() - j,
    {
        j = j + 1;
    }
    j
}

fn token_end_exec(s: &Vec<char>, i: usize) -> (r: usize)
    requires
        i <= s@.len(),
    ensures
        r == token_end(s@, i as int),
{
    let mut j = i;
    while j < s.len() && !is_whitespace(s[j])
        invariant
            i <= j <= s@.len(),
            token_end(s@, i as int) == token_end(s@, j as int),
        decreases s@.len() - j,
    {
        j = j + 1;
    }
    j
}

/// The bounds of the second whitespace-separated token of `s`, if there is one.
pub fn second_token(s: &Vec<char>) -> (res: Option<(usize, usize)>)
    ensures
        match res {
            Some((a, b)) => nth_token(s@, 0, 1) == Some((a as int, b as int)) && a <= b <= s@.len(),
            None => nth_token(s@, 0, 1) is None,
        },
{
    let a0 = skip_ws_exec(s, 0);
    if a0 >= s.len() {
        return None;
    }
    let b0 = token_end_exec(s, a0);
    proof {
        lemma_token_end_bounds(s@, a0 as int);
    }
    let a1 = skip_ws_exec(s, b0);
    proof {
        lemma_skip_ws_bounds(s@, b0 as int);
        assert(nth_token(s@, 0, 1) == nth_token(s@, b0 as int, 0));
    }
    if a1 >= s.len() {
        return None;
    }
    let b1 = token_end_exec(s, a1);
    proof {
        lemma_token_end_bounds(s@, a1 as int);
    }
    Some((a1, b1))
}

/// The pieces of `s` from index `i` on, separated by `c` (as `str::split` gives them).
pub open spec fn split_from(s: Seq<char>, c: char, i: int) -> Seq<Seq<char>>
    decreases s.len() - i,
{
    if i < 0 || i > s.len() {
        Seq::empty()
    } else {
        let k = find_from(s, c, i);
        if k >= s.len() {
            seq![s.subrange(i, s.len() as int)]
        } else {
            proof {
                lemma_find_from_bounds(s, c, i);
            }
            seq![s.subrange(i, k)] + split_from(s, c, k + 1)
        }
    }
}

/// Splits `s` at every `c`.
pub fn split_chars(s: &Vec<char>, c: char) -> (res: Vec<Vec<char>>)
    ensures
        res.deep_view() == split_from(s@, c, 0),
{
    let mut res: Vec<Vec<char>> = Vec::new();
    let mut st: usize = 0;
    loop
        invariant
            st <= s@.len(),
            split_from(s@, c, 0) == res.deep_view() + split_from(s@, c, st as int),
        decreases s@.len() - st,
    {
        let k = find_char_from(s, c, st);
        proof {
            lemma_find_from_bounds(s@, c, st as int);
        }
        let piece = slice_chars(s, st, k);
        let ghost before = res.deep_view();
        assert(piece.deep_view() =~= piece@);
        res.push(piece);
        assert(res.deep_view() =~= before.push(s@.subrange(st as int, k as int)));
        if k >= s.len() {
            assert(split_from(s@, c, st as int) == seq![s@.subrange(st as int, s@.len() as int)]);
            assert(before.push(s@.subrange(st as int, k as int)) == before + seq![s@.subrange(st as int, k as int)]);
            return res;
        }
        assert(split_from(s@, c, st as int) == seq![s@.subrange(st as int, k as int)] + split_from(s@, c, k + 1));
        assert(before + (seq![s@.subrange(st as int, k as int)] + split_from(s@, c, k + 1)) == before.push(s@.subrange(st as int, k as int)) + split_from(s@, c, k + 1));
        st = k + 1;
    }
}

/// The characters from `a` up to `b`.
pub fn slice_chars(s: &Vec<char>, a: usize, b: usize) -> (res: Vec<char>)
    requires
        a <= b <= s@.len(),
    ensures
        res@ == s@.subrange(a as int, b as int),
{
    let mut res: Vec<char> = Vec::new();
    let mut i = a;
    while i < b
        invariant
            a <= i <= b <= s@.len(),
            res@ == s@.subrange(a as int, i as int),
        decreases b - i,
    {
        res.push(s[i]);
        i = i + 1;
    }
    res
}

/// Whether two character vectors are equal.
pub fn chars_eq(a: &Vec<char>, b: &Vec<char>) -> (res: bool)
    ensures
        res == (a@ == b@),
{
    if a.len() != b.len() {
        return false;
    }
    let mut i: usize = 0;
    while i < a.len()
        invariant
            a@.len() == b@.len(),
            i <= a@.len(),
            forall|t: int| 0 <= t < i ==> a@[t] == b@[t],
        decreases a@.len() - i,
    {
        if a[i] != b[i] {
            return false;
        }
        i = i + 1;
    }
    assert(a@ =~= b@);
    true
}

/// The decimal digits of a natural number.
pub open spec fn decimal(n: nat) -> Seq<char>
    decreases n,
{
    if n < 10 {
        seq![((n + 48) as u8) as char]
    } else {
        decimal(n / 10).push((((n % 10) + 48) as u8) as char)
    }
}

/// The decimal text of an integer, with a `-` when it is negative.
pub open spec fn signed_decimal(n: int) -> Seq<char> {
    if n < 0 {
        seq!['-'] + decimal((-n) as nat)
    } else {
        decimal(n as nat)
    }
}

/// Writes a natural number in decimal.
pub fn u64_to_string(n: u64) -> (res: String)
    ensures
        res@ == decimal(n as nat),
    decreases n,
{
    if n < 10 {
        let mut s = String::new();
        push_char(&mut s, ((n as u8) + 48) as char);
        s
    } else {
        let mut s = u64_to_string(n / 10);
        push_char(&mut s, (((n % 10) as u8) + 48) as char);
        s
    }
}

/// Writes an integer in decimal.
pub fn i64_to_string(n: i64) -> (res: String)
    ensures
        res@ == signed_decimal(n as int),
{
    if n < 0 {
        let m: u64 = if n == i64::MIN {
            9223372036854775808u64
        } else {
            (-n) as u64
        };
        let mut s = String::new();
        push_char(&mut s, '-');
        let d = u64_to_string(m);
        s.append(d.as_str());
        s
    } else {
        u64_to_string(n as u64)
    }
}

} // verus!
