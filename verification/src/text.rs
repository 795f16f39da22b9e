//! Character-sequence primitives used by the command-output parsers.
//!
//! Every parser in this crate works on the characters of its input.  The
//! functions here state, over `Seq<char>`, what the usual string operations
//! (`trim`, `lines`, `starts_with`, `contains`, `split_once`) compute, and
//! implement them on slices of characters.

use vstd::prelude::*;

verus! {

// ---------------------------------------------------------------------------
// Specifications
// ---------------------------------------------------------------------------

/// Unicode `White_Space`, the set that `char::is_whitespace` tests.
pub open spec fn is_ws(c: char) -> bool {
    ||| ('\u{9}' <= c && c <= '\u{d}')
    ||| c == ' '
    ||| c == '\u{85}'
    ||| c == '\u{a0}'
    ||| c == '\u{1680}'
    ||| ('\u{2000}' <= c && c <= '\u{200a}')
    ||| c == '\u{2028}'
    ||| c == '\u{2029}'
    ||| c == '\u{202f}'
    ||| c == '\u{205f}'
    ||| c == '\u{3000}'
}

/// ASCII decimal digit.
pub open spec fn is_digit(c: char) -> bool {
    '0' <= c && c <= '9'
}

/// `s` without its leading whitespace.
pub open spec fn trim_start(s: Seq<char>) -> Seq<char>
    decreases s.len(),
{
    if s.len() > 0 && is_ws(s[0]) {
        trim_start(s.drop_first())
    } else {
        s
    }
}

/// `s` without its trailing whitespace.
pub open spec fn trim_end(s: Seq<char>) -> Seq<char>
    decreases s.len(),
{
    if s.len() > 0 && is_ws(s.last()) {
        trim_end(s.drop_last())
    } else {
        s
    }
}

/// `s` without leading and trailing whitespace (`str::trim`).
pub open spec fn trim(s: Seq<char>) -> Seq<char> {
    trim_end(trim_start(s))
}

/// `s` begins with `p`.
pub open spec fn starts_with(s: Seq<char>, p: Seq<char>) -> bool {
    p.len() <= s.len() && s.subrange(0, p.len() as int) == p
}

/// `s` ends with `p`.
pub open spec fn ends_with(s: Seq<char>, p: Seq<char>) -> bool {
    p.len() <= s.len() && s.subrange(s.len() - p.len(), s.len() as int) == p
}

/// `p` occurs in `s` at position `i`.
pub open spec fn occurs_at(s: Seq<char>, p: Seq<char>, i: int) -> bool {
    0 <= i && i + p.len() <= s.len() && s.subrange(i, i + p.len()) == p
}

/// `p` occurs somewhere in `s` (`str::contains`).
pub open spec fn contains(s: Seq<char>, p: Seq<char>) -> bool {
    exists|i: int| #[trigger] occurs_at(s, p, i)
}

/// First position at or after `i` where `p` occurs in `s`.
pub open spec fn find_from(s: Seq<char>, p: Seq<char>, i: int) -> Option<int>
    decreases s.len() + 1 - i,
{
    if i < 0 || i + p.len() > s.len() {
        None
    } else if occurs_at(s, p, i) {
        Some(i)
    } else {
        find_from(s, p, i + 1)
    }
}

/// Position of the first whitespace character in `s`, or `s.len()`.
pub open spec fn ws_index(s: Seq<char>) -> int
    decreases s.len(),
{
    if s.len() == 0 {
        0
    } else if is_ws(s[0]) {
        0
    } else {
        1 + ws_index(s.drop_first())
    }
}

/// The whitespace-separated words of `s` (`str::split_whitespace`).
pub open spec fn words(s: Seq<char>) -> Seq<Seq<char>>
    decreases s.len(),
{
    let t = trim_start(s);
    if t.len() == 0 {
        Seq::empty()
    } else {
        let k = ws_index(t);
        proof {
            lemma_trim_start_shape(s);
            lemma_ws_index_bounds(t);
        }
        seq![t.subrange(0, k)] + words(t.subrange(k, t.len() as int))
    }
}

/// The elements of `ws` separated by `sep` (`[&str]::join`).
pub open spec fn join(ws: Seq<Seq<char>>, sep: Seq<char>) -> Seq<char>
    decreases ws.len(),
{
    if ws.len() == 0 {
        Seq::empty()
    } else if ws.len() == 1 {
        ws[0]
    } else {
        join(ws.drop_last(), sep) + sep + ws.last()
    }
}

/// The value of the last line of `ls` that, trimmed, starts with `prefix`
/// and for which `f` gives a value; `None` when there is no such line.
pub open spec fn last_field(
    ls: Seq<Seq<char>>,
    prefix: Seq<char>,
    f: spec_fn(Seq<char>) -> Option<Seq<char>>,
) -> Option<Seq<char>>
    decreases ls.len(),
{
    if ls.len() == 0 {
        None
    } else {
        let t = trim(ls.last());
        if starts_with(t, prefix) && f(t) is Some {
            f(t)
        } else {
            last_field(ls.drop_last(), prefix, f)
        }
    }
}

/// `Some(s)` when `s` is not empty.
pub open spec fn non_empty(s: Seq<char>) -> Option<Seq<char>> {
    if s.len() == 0 {
        None
    } else {
        Some(s)
    }
}

/// The character view of an optional string.
pub open spec fn opt_view(o: Option<String>) -> Option<Seq<char>> {
    match o {
        Some(s) => Some(s@),
        None => None,
    }
}

/// The character view of an optional character vector.
pub open spec fn opt_vview(o: Option<Vec<char>>) -> Option<Seq<char>> {
    match o {
        Some(s) => Some(s@),
        None => None,
    }
}

/// Position of the first `c` in `s`, or `s.len()` when there is none.
pub open spec fn index_of(s: Seq<char>, c: char) -> int
    decreases s.len(),
{
    if s.len() == 0 {
        0
    } else if s[0] == c {
        0
    } else {
        1 + index_of(s.drop_first(), c)
    }
}

/// The part of `s` after the first `c` (`split_once(c).1`), when `c` occurs.
pub open spec fn after_first(s: Seq<char>, c: char) -> Option<Seq<char>> {
    if index_of(s, c) < s.len() {
        Some(s.subrange(index_of(s, c) + 1, s.len() as int))
    } else {
        None
    }
}

/// The part of `s` before the first `c` (`split_once(c).0`), when `c` occurs.
pub open spec fn before_first(s: Seq<char>, c: char) -> Option<Seq<char>> {
    if index_of(s, c) < s.len() {
        Some(s.subrange(0, index_of(s, c)))
    } else {
        None
    }
}

/// One line as `str::lines` yields it: a `\r` is dropped only where it
/// stands before the `\n` that ends the line.
pub open spec fn line_text(s: Seq<char>) -> Seq<char> {
    let k = index_of(s, '\n');
    if k < s.len() && k > 0 && s[k - 1] == '\r' {
        s.subrange(0, k - 1)
    } else {
        s.subrange(0, k)
    }
}

/// The lines of `s`, as `str::lines` yields them: split at `\n`, a final
/// line ending is optional, and the empty string has no lines.
pub open spec fn lines(s: Seq<char>) -> Seq<Seq<char>>
    decreases s.len(),
{
    if s.len() == 0 {
        Seq::empty()
    } else {
        let k = index_of(s, '\n');
        proof {
            lemma_index_of_bounds(s, '\n');
        }
        if k < s.len() {
            seq![line_text(s)] + lines(s.subrange(k + 1, s.len() as int))
        } else {
            seq![line_text(s)]
        }
    }
}

/// The pieces of `s` between occurrences of `c`, as `str::split(c)` yields
/// them: there is always at least one piece, and empty pieces are kept.
pub open spec fn split_on(s: Seq<char>, c: char) -> Seq<Seq<char>>
    decreases s.len(),
{
    let k = index_of(s, c);
    proof {
        lemma_index_of_bounds(s, c);
    }
    if k < s.len() {
        seq![s.subrange(0, k)] + split_on(s.subrange(k + 1, s.len() as int), c)
    } else {
        seq![s]
    }
}

/// What `str::to_uppercase` returns (full Unicode case mapping).
pub uninterp spec fn str_to_uppercase(s: Seq<char>) -> Seq<char>;

/// What `str::to_lowercase` returns (full Unicode case mapping).
pub uninterp spec fn str_to_lowercase(s: Seq<char>) -> Seq<char>;

// ---------------------------------------------------------------------------
// Lemmas
// ---------------------------------------------------------------------------

/// One more line extends `last_field` by that line.
pub proof fn lemma_last_field_step(
    ls: Seq<Seq<char>>,
    i: int,
    prefix: Seq<char>,
    f: spec_fn(Seq<char>) -> Option<Seq<char>>,
)
    requires
        0 <= i < ls.len(),
    ensures
        last_field(ls.take(i + 1), prefix, f) == (if starts_with(trim(ls[i]), prefix) && f(
            trim(ls[i]),
        ) is Some {
            f(trim(ls[i]))
        } else {
            last_field(ls.take(i), prefix, f)
        }),
{
    assert(ls.take(i + 1).drop_last() =~= ls.take(i));
    assert(ls.take(i + 1).last() == ls[i]);
}

/// `trim_start(s)` is a suffix of `s` that is empty or starts with a
/// non-whitespace character.
pub proof fn lemma_trim_start_shape(s: Seq<char>)
    ensures
        trim_start(s).len() <= s.len(),
        trim_start(s) == s.subrange(s.len() - trim_start(s).len(), s.len() as int),
        trim_start(s).len() > 0 ==> !is_ws(trim_start(s)[0]),
        forall|j: int| 0 <= j < s.len() - trim_start(s).len() ==> is_ws(s[j]),
    decreases s.len(),
{
    if s.len() > 0 && is_ws(s[0]) {
        lemma_trim_start_shape(s.drop_first());
        assert forall|j: int| 0 <= j < s.len() - trim_start(s).len() implies is_ws(s[j]) by {
            if j > 0 {
                assert(s[j] == s.drop_first()[j - 1]);
            }
        }
        assert(trim_start(s) =~= s.subrange(s.len() - trim_start(s).len(), s.len() as int));
    } else {
        assert(s.subrange(0, s.len() as int) =~= s);
    }
}

pub proof fn lemma_ws_index_bounds(s: Seq<char>)
    ensures
        0 <= ws_index(s) <= s.len(),
        ws_index(s) < s.len() ==> is_ws(s[ws_index(s)]),
        forall|j: int| 0 <= j < ws_index(s) ==> !is_ws(s[j]),
    decreases s.len(),
{
    if s.len() > 0 && !is_ws(s[0]) {
        lemma_ws_index_bounds(s.drop_first());
        assert forall|j: int| 0 <= j < ws_index(s) implies !is_ws(s[j]) by {
            if j > 0 {
                assert(s[j] == s.drop_first()[j - 1]);
            }
        }
    }
}

pub proof fn lemma_ws_index_exact(s: Seq<char>, k: int)
    requires
        0 <= k <= s.len(),
        k < s.len() ==> is_ws(s[k]),
        forall|j: int| 0 <= j < k ==> !is_ws(s[j]),
    ensures
        ws_index(s) == k,
    decreases s.len(),
{
    if s.len() > 0 && k > 0 {
        assert forall|j: int| 0 <= j < k - 1 implies !is_ws(s.drop_first()[j]) by {
            assert(s.drop_first()[j] == s[j + 1]);
        }
        lemma_ws_index_exact(s.drop_first(), k - 1);
    }
}

/// A suffix starting after whitespace only, at a non-whitespace character
/// or at the end, is `trim_start`.
pub proof fn lemma_trim_start_exact(s: Seq<char>, k: int)
    requires
        0 <= k <= s.len(),
        k < s.len() ==> !is_ws(s[k]),
        forall|j: int| 0 <= j < k ==> is_ws(s[j]),
    ensures
        trim_start(s) == s.subrange(k, s.len() as int),
    decreases s.len(),
{
    if s.len() > 0 && k > 0 {
        assert forall|j: int| 0 <= j < k - 1 implies is_ws(s.drop_first()[j]) by {
            assert(s.drop_first()[j] == s[j + 1]);
        }
        lemma_trim_start_exact(s.drop_first(), k - 1);
        assert(s.drop_first().subrange(k - 1, s.len() - 1) =~= s.subrange(k, s.len() as int));
    } else {
        assert(s.subrange(0, s.len() as int) =~= s);
    }
}

pub proof fn lemma_index_of_bounds(s: Seq<char>, c: char)
    ensures
        0 <= index_of(s, c) <= s.len(),
        index_of(s, c) < s.len() ==> s[index_of(s, c)] == c,
        forall|j: int| 0 <= j < index_of(s, c) ==> s[j] != c,
    decreases s.len(),
{
    if s.len() > 0 && s[0] != c {
        lemma_index_of_bounds(s.drop_first(), c);
        assert forall|j: int| 0 <= j < index_of(s, c) implies s[j] != c by {
            if j > 0 {
                assert(s[j] == s.drop_first()[j - 1]);
            }
        }
    }
}

pub proof fn lemma_index_of_exact(s: Seq<char>, c: char, k: int)
    requires
        0 <= k <= s.len(),
        k < s.len() ==> s[k] == c,
        forall|j: int| 0 <= j < k ==> s[j] != c,
    ensures
        index_of(s, c) == k,
    decreases s.len(),
{
    if s.len() > 0 && k > 0 {
        assert forall|j: int| 0 <= j < k - 1 implies s.drop_first()[j] != c by {
            assert(s.drop_first()[j] == s[j + 1]);
        }
        lemma_index_of_exact(s.drop_first(), c, k - 1);
    }
}

// ---------------------------------------------------------------------------
// Conversions between strings and character vectors
// ---------------------------------------------------------------------------

/// The characters of a string slice, in order.
pub fn chars_of(s: &str) -> (res: Vec<char>)
    ensures
        res@ == s@,
{
    let mut res: Vec<char> = Vec::new();
    for c in it: s.chars()
        invariant
            it.seq() == s@,
            res@ == it.seq().take(it.index() as int),
    {
        res.push(c);
    }
    res
}

/// Builds a `String` from characters (`FromIterator<char>` for `String`).
#[verifier::external_body]
pub fn string_from_chars(v: &[char]) -> (res: String)
    ensures
        res@ == v@,
{
    v.iter().collect()
}

/// `str::to_uppercase`, applied to the string these characters spell.
#[verifier::external_body]
pub fn upper_chars(v: &[char]) -> (res: Vec<char>)
    ensures
        res@ == str_to_uppercase(v@),
{
    v.iter().collect::<String>().to_uppercase().chars().collect()
}

/// `str::to_lowercase`, applied to the string these characters spell.
#[verifier::external_body]
pub fn lower_chars(v: &[char]) -> (res: Vec<char>)
    ensures
        res@ == str_to_lowercase(v@),
{
    v.iter().collect::<String>().to_lowercase().chars().collect()
}

// ---------------------------------------------------------------------------
// Executable operations
// ---------------------------------------------------------------------------

/// Converts an optional character vector into an optional string.
pub fn opt_string(o: Option<Vec<char>>) -> (res: Option<String>)
    ensures
        opt_view(res) == opt_vview(o),
{
    match o {
        Some(v) => Some(string_from_chars(&v)),
        None => None,
    }
}

/// `char::is_whitespace`.
pub fn is_ws_char(c: char) -> (b: bool)
    ensures
        b == is_ws(c),
{
    ('\u{9}' <= c && c <= '\u{d}') || c == ' ' || c == '\u{85}' || c == '\u{a0}' || c
        == '\u{1680}' || ('\u{2000}' <= c && c <= '\u{200a}') || c == '\u{2028}' || c
        == '\u{2029}' || c == '\u{202f}' || c == '\u{205f}' || c == '\u{3000}'
}

/// Copies `v[lo..hi]`.
pub fn slice_range(v: &[char], lo: usize, hi: usize) -> (res: Vec<char>)
    requires
        lo <= hi <= v@.len(),
    ensures
        res@ == v@.subrange(lo as int, hi as int),
{
    let mut res: Vec<char> = Vec::new();
    let mut i = lo;
    while i < hi
        invariant
            lo <= i <= hi <= v@.len(),
            res@ == v@.subrange(lo as int, i as int),
        decreases hi - i,
    {
        res.push(v[i]);
        i = i + 1;
    }
    res
}

/// Bounds of `trim(v)` inside `v`.
pub fn trim_bounds(v: &[char]) -> (res: (usize, usize))
    ensures
        res.0 <= res.1 <= v@.len(),
        trim(v@) == v@.subrange(res.0 as int, res.1 as int),
{
    let n = v.len();
    let mut i: usize = 0;
    assert(v@.subrange(0, n as int) =~= v@);
    while i < n && is_ws_char(v[i])
        invariant
            i <= n == v@.len(),
            trim_start(v@) == trim_start(v@.subrange(i as int, n as int)),
        decreases n - i,
    {
        assert(v@.subrange(i as int, n as int).drop_first() =~= v@.subrange(i + 1, n as int));
        i = i + 1;
    }
    assert(trim_start(v@.subrange(i as int, n as int)) == v@.subrange(i as int, n as int));
    let mut j: usize = n;
    while j > i && is_ws_char(v[j - 1])
        invariant
            i <= j <= n == v@.len(),
            trim_end(v@.subrange(i as int, n as int)) == trim_end(v@.subrange(i as int, j as int)),
        decreases j - i,
    {
        assert(v@.subrange(i as int, j as int).drop_last() =~= v@.subrange(i as int, j - 1));
        j = j - 1;
    }
    assert(trim_end(v@.subrange(i as int, j as int)) == v@.subrange(i as int, j as int));
    (i, j)
}

/// `str::trim`.
pub fn trim_chars(v: &[char]) -> (res: Vec<char>)
    ensures
        res@ == trim(v@),
{
    let (lo, hi) = trim_bounds(v);
    slice_range(v, lo, hi)
}

/// Character-wise equality.
pub fn chars_eq(a: &[char], b: &[char]) -> (res: bool)
    ensures
        res == (a@ == b@),
{
    if a.len() != b.len() {
        return false;
    }
    let mut i: usize = 0;
    while i < a.len()
        invariant
            a@.len() == b@.len(),
            i <= a@.len(),
            forall|j: int| 0 <= j < i ==> a@[j] == b@[j],
        decreases a.len() - i,
    {
        if a[i] != b[i] {
            return false;
        }
        i = i + 1;
    }
    assert(a@ =~= b@);
    true
}

/// `p` occurs in `s` at `i`.
pub fn occurs_at_exec(s: &[char], p: &[char], i: usize) -> (res: bool)
    ensures
        res == occurs_at(s@, p@, i as int),
{
    if i > s.len() || p.len() > s.len() - i {
        return false;
    }
    let n = s.len();
    let mut k: usize = 0;
    while k < p.len()
        invariant
            n == s@.len(),
            i + p@.len() <= s@.len(),
            k <= p@.len(),
            forall|j: int| 0 <= j < k ==> s@[i + j] == p@[j],
        decreases p.len() - k,
    {
        assert(i + k < n);
        if s[i + k] != p[k] {
            assert(s@.subrange(i as int, i + p@.len())[k as int] != p@[k as int]);
            return false;
        }
        k = k + 1;
    }
    assert(s@.subrange(i as int, i + p@.len()) =~= p@);
    true
}

/// `str::starts_with`.
pub fn starts_with_exec(s: &[char], p: &[char]) -> (res: bool)
    ensures
        res == starts_with(s@, p@),
{
    occurs_at_exec(s, p, 0)
}

/// `str::ends_with`.
pub fn ends_with_exec(s: &[char], p: &[char]) -> (res: bool)
    ensures
        res == ends_with(s@, p@),
{
    if p.len() > s.len() {
        return false;
    }
    occurs_at_exec(s, p, s.len() - p.len())
}

/// `str::contains` for a string pattern.
pub fn contains_exec(s: &[char], p: &[char]) -> (res: bool)
    ensures
        res == contains(s@, p@),
{
    if p.len() > s.len() {
        assert forall|i: int| !occurs_at(s@, p@, i) by {}
        return false;
    }
    let last = s.len() - p.len();
    let mut i: usize = 0;
    while i <= last
        invariant
            last + p@.len() == s@.len(),
            forall|j: int| 0 <= j < i ==> !occurs_at(s@, p@, j),
        decreases last + 1 - i,
    {
        if occurs_at_exec(s, p, i) {
            return true;
        }
        if i == last {
            assert forall|j: int| !occurs_at(s@, p@, j) by {
                if 0 <= j <= last {
                } 
            }
            return false;
        }
        i = i + 1;
    }
    false
}

/// Position of the first `c` at or after `from`, or `v.len()`.
pub fn index_of_from(v: &[char], c: char, from: usize) -> (res: usize)
    requires
        from <= v@.len(),
    ensures
        from <= res <= v@.len(),
        res - from == index_of(v@.subrange(from as int, v@.len() as int), c),
{
    let mut k = from;
    while k < v.len() && v[k] != c
        invariant
            from <= k <= v@.len(),
            forall|j: int| from <= j < k ==> v@[j] != c,
        decreases v.len() - k,
    {
        k = k + 1;
    }
    proof {
        let t = v@.subrange(from as int, v@.len() as int);
        lemma_index_of_exact(t, c, k - from);
    }
    k
}

/// `split_once(c).1`: the part after the first `c`.
pub fn after_first_exec(v: &[char], c: char) -> (res: Option<Vec<char>>)
    ensures
        res.is_some() == after_first(v@, c).is_some(),
        res is Some ==> res.unwrap()@ == after_first(v@, c).unwrap(),
{
    let k = index_of_from(v, c, 0);
    assert(v@.subrange(0, v@.len() as int) =~= v@);
    if k < v.len() {
        Some(slice_range(v, k + 1, v.len()))
    } else {
        None
    }
}

/// The character sequences held by a vector of character vectors.
pub open spec fn views(v: Seq<Vec<char>>) -> Seq<Seq<char>> {
    v.map_values(|l: Vec<char>| l@)
}

/// First position at or after `from` where `p` occurs in `s`.
pub fn find_from_exec(s: &[char], p: &[char], from: usize) -> (res: Option<usize>)
    ensures
        match find_from(s@, p@, from as int) {
            Some(j) => res == Some(j as usize),
            None => res is None,
        },
{
    let n = s.len();
    let mut j = from;
    while j <= n && p.len() <= n - j
        invariant
            n == s@.len(),
            from <= j,
            find_from(s@, p@, from as int) == find_from(s@, p@, j as int),
        decreases n + 1 - j,
    {
        if occurs_at_exec(s, p, j) {
            return Some(j);
        }
        proof {
            if p@.len() == 0 {
                assert(s@.subrange(j as int, j as int) =~= p@);
            }
        }
        j = j + 1;
    }
    None
}

/// `str::split_whitespace`.
pub fn split_words(v: &[char]) -> (res: Vec<Vec<char>>)
    ensures
        views(res@) == words(v@),
{
    let n = v.len();
    let mut res: Vec<Vec<char>> = Vec::new();
    let mut pos: usize = 0;
    assert(v@.subrange(0, n as int) =~= v@);
    while pos < n
        invariant
            pos <= n == v@.len(),
            views(res@) + words(v@.subrange(pos as int, n as int)) == words(v@),
        decreases n - pos,
    {
        let ghost rest = v@.subrange(pos as int, n as int);
        let mut q = pos;
        while q < n && is_ws_char(v[q])
            invariant
                pos <= q <= n == v@.len(),
                forall|j: int| pos <= j < q ==> is_ws(v@[j]),
            decreases n - q,
        {
            q = q + 1;
        }
        proof {
            lemma_trim_start_exact(rest, q - pos);
            assert(rest.subrange(q - pos, rest.len() as int) =~= v@.subrange(q as int, n as int));
        }
        if q == n {
            assert(words(rest) == Seq::<Seq<char>>::empty());
            assert(v@.subrange(n as int, n as int) =~= Seq::<char>::empty());
            assert(views(res@) + words(rest) =~= views(res@));
            pos = n;
        } else {
            let mut e = q;
            while e < n && !is_ws_char(v[e])
                invariant
                    q <= e <= n == v@.len(),
                    forall|j: int| q <= j < e ==> !is_ws(v@[j]),
                decreases n - e,
            {
                e = e + 1;
            }
            let ghost t = v@.subrange(q as int, n as int);
            proof {
                lemma_ws_index_exact(t, e - q);
                assert(t.subrange(0, e - q) =~= v@.subrange(q as int, e as int));
                assert(t.subrange(e - q, t.len() as int) =~= v@.subrange(e as int, n as int));
            }
            let w = slice_range(v, q, e);
            let ghost before = views(res@);
            let ghost wv = w@;
            res.push(w);
            assert(views(res@) =~= before.push(wv));
            assert(before + words(rest) =~= views(res@) + words(v@.subrange(e as int, n as int)));
            pos = e;
        }
    }
    assert(v@.subrange(n as int, n as int) =~= Seq::<char>::empty());
    assert(views(res@) + Seq::<Seq<char>>::empty() =~= views(res@));
    res
}

/// `ws[from..].join(sep)`.
pub fn join_from(ws: &Vec<Vec<char>>, from: usize, sep: &[char]) -> (res: Vec<char>)
    requires
        from <= ws@.len(),
    ensures
        res@ == join(views(ws@).subrange(from as int, ws@.len() as int), sep@),
{
    let ghost all = views(ws@).subrange(from as int, ws@.len() as int);
    let mut res: Vec<char> = Vec::new();
    let mut i = from;
    while i < ws.len()
        invariant
            from <= i <= ws@.len(),
            all == views(ws@).subrange(from as int, ws@.len() as int),
            res@ == join(all.take(i - from), sep@),
        decreases ws.len() - i,
    {
        let ghost cur = all.take(i - from + 1);
        assert(cur.drop_last() =~= all.take(i - from));
        assert(cur.last() == ws@[i as int]@);
        if i > from {
            append_chars(&mut res, sep);
        } else {
            assert(all.take(0) =~= Seq::<Seq<char>>::empty());
        }
        append_chars(&mut res, &ws[i]);
        proof {
            if i == from {
                assert(res@ =~= ws@[i as int]@);
            }
        }
        i = i + 1;
    }
    assert(all.take(ws@.len() - from) =~= all);
    res
}

/// Appends `b` to `a`.
pub fn append_chars(a: &mut Vec<char>, b: &[char])
    ensures
        final(a)@ == old(a)@ + b@,
{
    let mut k: usize = 0;
    let ghost a0 = a@;
    while k < b.len()
        invariant
            k <= b@.len(),
            a@ == a0 + b@.take(k as int),
        decreases b.len() - k,
    {
        a.push(b[k]);
        assert(a@ =~= a0 + b@.take(k + 1));
        k = k + 1;
    }
    assert(b@.take(b@.len() as int) =~= b@);
}

/// `str::lines`.
pub fn split_lines(v: &[char]) -> (res: Vec<Vec<char>>)
    ensures
        views(res@) == lines(v@),
{
    let n = v.len();
    let mut res: Vec<Vec<char>> = Vec::new();
    let mut pos: usize = 0;
    assert(v@.subrange(0, n as int) =~= v@);
    while pos < n
        invariant
            pos <= n == v@.len(),
            views(res@) + lines(v@.subrange(pos as int, n as int)) == lines(v@),
        decreases n - pos,
    {
        let ghost rest = v@.subrange(pos as int, n as int);
        let k = index_of_from(v, '\n', pos);
        proof {
            lemma_index_of_bounds(rest, '\n');
        }
        let end = if k < n && k > pos && v[k - 1] == '\r' { k - 1 } else { k };
        let line = slice_range(v, pos, end);
        assert(line@ == line_text(rest)) by {
            assert(line@ =~= line_text(rest));
        }
        let ghost before = views(res@);
        let ghost line_v = line@;
        res.push(line);
        assert(views(res@) =~= before.push(line_v));
        if k < n {
            assert(rest.subrange(k - pos + 1, rest.len() as int) =~= v@.subrange(k + 1, n as int));
            assert(before + lines(rest) =~= views(res@) + lines(v@.subrange(k + 1, n as int)));
            pos = k + 1;
        } else {
            assert(v@.subrange(n as int, n as int) =~= Seq::<char>::empty());
            assert(before + lines(rest) =~= views(res@) + lines(v@.subrange(n as int, n as int)));
            pos = n;
        }
    }
    assert(v@.subrange(n as int, n as int) =~= Seq::<char>::empty());
    assert(views(res@) + Seq::<Seq<char>>::empty() =~= views(res@));
    res
}

/// `str::split` on a character.
pub fn split_on_exec(v: &[char], c: char) -> (res: Vec<Vec<char>>)
    ensures
        views(res@) == split_on(v@, c),
{
    let n = v.len();
    let mut res: Vec<Vec<char>> = Vec::new();
    let mut pos: usize = 0;
    assert(v@.subrange(0, n as int) =~= v@);
    loop
        invariant
            pos <= n == v@.len(),
            views(res@) + split_on(v@.subrange(pos as int, n as int), c) == split_on(v@, c),
        decreases n - pos,
    {
        let ghost rest = v@.subrange(pos as int, n as int);
        let k = index_of_from(v, c, pos);
        proof {
            lemma_index_of_bounds(rest, c);
        }
        let piece = slice_range(v, pos, k);
        assert(piece@ =~= rest.subrange(0, k - pos));
        let ghost before = views(res@);
        let ghost piece_v = piece@;
        res.push(piece);
        assert(views(res@) =~= before.push(piece_v));
        if k < n {
            assert(rest.subrange(k - pos + 1, rest.len() as int) =~= v@.subrange(k + 1, n as int));
            assert(before + split_on(rest, c) =~= views(res@) + split_on(
                v@.subrange(k + 1, n as int),
                c,
            ));
            pos = k + 1;
        } else {
            assert(rest.subrange(0, k - pos) =~= rest);
            assert(before + split_on(rest, c) =~= views(res@));
            return res;
        }
    }
}

} // verus!
