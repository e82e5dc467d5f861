//! Text model: strings are viewed as `Seq<char>`; the functions here build and
//! inspect them with exact contracts.
use vstd::prelude::*;

verus! {

// ---------------------------------------------------------------------------
// Conversions between `&str`/`String` and character vectors.
// ---------------------------------------------------------------------------

/// The characters of `s`, in order.
pub fn chars_of(s: &str) -> (res: Vec<char>)
    ensures
        res@ == s@,
{
    broadcast use vstd::string::axiom_spec_iter;
    let mut v: Vec<char> = Vec::new();
    for c in it: s.chars()
        invariant
            it.seq() == s@,
            v@ == it.seq().take(it.index()),
    {
        v.push(c);
    }
    assert(v@ == s@.take(s@.len() as int));
    v
}

/// A `String` holding exactly the characters of `v`.
pub fn string_of(v: &Vec<char>) -> (res: String)
    ensures
        res@ == v@,
{
    let mut out = String::new();
    let mut i: usize = 0;
    while i < v.len()
        invariant
            i <= v.len(),
            out@ == v@.take(i as int),
        decreases v.len() - i,
    {
        push_char(&mut out, v[i]);
        assert(v@.take(i + 1) == v@.take(i as int).push(v@[i as int]));
        i += 1;
    }
    assert(v@.take(v.len() as int) == v@);
    out
}

/// Appends one character to `s`.
#[verifier::external_body]
pub(crate) fn push_char(s: &mut String, c: char)
    ensures
        final(s)@ == old(s)@.push(c),
{
    s.push(c)
}

/// `s` followed by `t`.
pub fn cat(s: &str, t: &str) -> (res: String)
    ensures
        res@ == s@ + t@,
{
    let mut r = s.to_string();
    r.append(t);
    r
}

/// `a`, `b` and `c`, one after another.
pub fn cat3(a: &str, b: &str, c: &str) -> (res: String)
    ensures
        res@ == a@ + b@ + c@,
{
    let mut r = a.to_string();
    r.append(b);
    r.append(c);
    r
}

/// Equality of two strings by their characters.
pub fn str_eq(a: &str, b: &str) -> (res: bool)
    ensures
        res == (a@ == b@),
{
    let va = chars_of(a);
    let vb = chars_of(b);
    vec_eq(&va, &vb)
}

/// Equality of two character vectors.
pub fn vec_eq(a: &Vec<char>, b: &Vec<char>) -> (res: bool)
    ensures
        res == (a@ == b@),
{
    if a.len() != b.len() {
        return false;
    }
    let n = a.len();
    let mut i: usize = 0;
    while i < n
        invariant
            n == a.len(),
            n == b.len(),
            i <= n,
            forall|k: int| 0 <= k < i ==> a@[k] == b@[k],
        decreases n - i,
    {
        if a[i] != b[i] {
            return false;
        }
        i = i + 1;
    }
    assert(a@ =~= b@);
    true
}

/// The characters of `v` from index `i` up to (not including) `j`.
pub fn slice_chars(v: &Vec<char>, i: usize, j: usize) -> (res: Vec<char>)
    requires
        i <= j <= v.len(),
    ensures
        res@ == v@.subrange(i as int, j as int),
{
    let mut r: Vec<char> = Vec::new();
    let mut k = i;
    while k < j
        invariant
            i <= k <= j <= v.len(),
            r@ == v@.subrange(i as int, k as int),
        decreases j - k,
    {
        r.push(v[k]);
        assert(r@ =~= v@.subrange(i as int, k + 1));
        k = k + 1;
    }
    r
}

// ---------------------------------------------------------------------------
// Prefixes and suffixes.
// ---------------------------------------------------------------------------

/// `p` is a prefix of `s`.
pub open spec fn starts_with(s: Seq<char>, p: Seq<char>) -> bool {
    p.len() <= s.len() && s.subrange(0, p.len() as int) == p
}

/// `p` is a suffix of `s`.
pub open spec fn ends_with(s: Seq<char>, p: Seq<char>) -> bool {
    p.len() <= s.len() && s.subrange(s.len() - p.len(), s.len() as int) == p
}

/// `p` occurs in `s` at position `i`.
pub open spec fn occurs_at(s: Seq<char>, p: Seq<char>, i: int) -> bool {
    0 <= i && i + p.len() <= s.len() && s.subrange(i, i + p.len()) == p
}

/// `p` occurs somewhere in `s`.
pub open spec fn contains(s: Seq<char>, p: Seq<char>) -> bool {
    exists|i: int| occurs_at(s, p, i)
}

/// Whether `p` occurs in `v` at position `i`.
pub fn occurs_at_exec(v: &Vec<char>, p: &Vec<char>, i: usize) -> (res: bool)
    ensures
        res == occurs_at(v@, p@, i as int),
{
    if i > v.len() || p.len() > v.len() - i {
        return false;
    }
    let n = p.len();
    let mut k: usize = 0;
    while k < n
        invariant
            n == p.len(),
            i + n <= v.len(),
            k <= n,
            forall|m: int| 0 <= m < k ==> v@[i + m] == p@[m],
        decreases n - k,
    {
        if v[i + k] != p[k] {
            assert(v@.subrange(i as int, i + n)[k as int] != p@[k as int]);
            return false;
        }
        k = k + 1;
    }
    assert(v@.subrange(i as int, i + n) =~= p@);
    true
}

/// Whether `s` starts with `p`.
pub fn str_starts_with(s: &str, p: &str) -> (res: bool)
    ensures
        res == starts_with(s@, p@),
{
    let v = chars_of(s);
    let w = chars_of(p);
    occurs_at_exec(&v, &w, 0)
}

/// Whether `s` ends with `p`.
pub fn str_ends_with(s: &str, p: &str) -> (res: bool)
    ensures
        res == ends_with(s@, p@),
{
    let v = chars_of(s);
    let w = chars_of(p);
    if w.len() > v.len() {
        return false;
    }
    occurs_at_exec(&v, &w, v.len() - w.len())
}

/// Whether `p` occurs anywhere in `s`.
pub fn str_contains(s: &str, p: &str) -> (res: bool)
    ensures
        res == contains(s@, p@),
{
    let v = chars_of(s);
    let w = chars_of(p);
    if w.len() > v.len() {
        assert forall|i: int| !occurs_at(s@, p@, i) by {}
        return false;
    }
    let last = v.len() - w.len();
    let mut i: usize = 0;
    loop
        invariant
            last == v.len() - w.len(),
            v@ == s@,
            w@ == p@,
            w.len() <= v.len(),
            i <= last,
            forall|k: int| 0 <= k < i ==> !occurs_at(s@, p@, k),
        ensures
            forall|k: int| 0 <= k <= last ==> !occurs_at(s@, p@, k),
        decreases last - i,
    {
        if occurs_at_exec(&v, &w, i) {
            return true;
        }
        if i == last {
            break;
        }
        i = i + 1;
    }
    assert forall|k: int| !occurs_at(s@, p@, k) by {}
    false
}

// ---------------------------------------------------------------------------
// Whitespace trimming (Unicode `White_Space`, as `str::trim` uses).
// ---------------------------------------------------------------------------

/// The characters with the Unicode `White_Space` property.
pub open spec fn is_ws(c: char) -> bool {
    ||| ('\u{9}' <= c && c <= '\u{d}')
    ||| c == ' '
    ||| c == '\u{85}'
    ||| c == '\u{a0}'
    ||| c == '\u{1680}'
    ||| ('\u{2000}' <= c && c <= '\u{200a}')
    ||| c == '\u{2028}'
    ||| c == '\u{2029}'
    ||| c == '\u{202f}'
    ||| c == '\u{205f}'
    ||| c == '\u{3000}'
}

/// Whether `c` is a whitespace character.
pub fn is_whitespace(c: char) -> (res: bool)
    ensures
        res == is_ws(c),
{
    ('\u{9}' <= c && c <= '\u{d}') || c == ' ' || c == '\u{85}' || c == '\u{a0}' || c
        == '\u{1680}' || ('\u{2000}' <= c && c <= '\u{200a}') || c == '\u{2028}' || c
        == '\u{2029}' || c == '\u{202f}' || c == '\u{205f}' || c == '\u{3000}'
}

/// `s` without its leading whitespace.
pub open spec fn trim_start(s: Seq<char>) -> Seq<char>
    decreases s.len(),
{
    if s.len() > 0 && is_ws(s[0]) {
        trim_start(s.drop_first())
    } else {
        s
    }
}

/// `s` without its trailing whitespace.
pub open spec fn trim_end(s: Seq<char>) -> Seq<char>
    decreases s.len(),
{
    if s.len() > 0 && is_ws(s.last()) {
        trim_end(s.drop_last())
    } else {
        s
    }
}

/// `s` without leading and trailing whitespace.
pub open spec fn trim(s: Seq<char>) -> Seq<char> {
    trim_end(trim_start(s))
}

/// `v` without leading and trailing whitespace.
pub fn trim_vec(v: &Vec<char>) -> (res: Vec<char>)
    ensures
        res@ == trim(v@),
{
    let n = v.len();
    let mut i: usize = 0;
    assert(v@.skip(0) =~= v@);
    while i < n && is_whitespace(v[i])
        invariant
            n == v.len(),
            i <= n,
            trim_start(v@) == trim_start(v@.skip(i as int)),
        decreases n - i,
    {
        assert(v@.skip(i as int).drop_first() =~= v@.skip(i + 1));
        i = i + 1;
    }
    assert(trim_start(v@) == v@.subrange(i as int, n as int)) by {
        assert(v@.skip(i as int) =~= v@.subrange(i as int, n as int));
    }
    let mut j: usize = n;
    while j > i && is_whitespace(v[j - 1])
        invariant
            n == v.len(),
            i <= j <= n,
            trim_end(v@.subrange(i as int, n as int)) == trim_end(v@.subrange(i as int, j as int)),
        decreases j,
    {
        assert(v@.subrange(i as int, j as int).drop_last() =~= v@.subrange(i as int, j - 1));
        j = j - 1;
    }
    slice_chars(v, i, j)
}

/// `s` without leading and trailing whitespace.
pub fn str_trim(s: &str) -> (res: String)
    ensures
        res@ == trim(s@),
{
    let v = chars_of(s);
    let t = trim_vec(&v);
    string_of(&t)
}

/// `v` without trailing copies of `c`.
pub open spec fn trim_end_char(s: Seq<char>, c: char) -> Seq<char>
    decreases s.len(),
{
    if s.len() > 0 && s.last() == c {
        trim_end_char(s.drop_last(), c)
    } else {
        s
    }
}

/// `v` without trailing copies of `c`.
pub fn trim_end_char_vec(v: &Vec<char>, c: char) -> (res: Vec<char>)
    ensures
        res@ == trim_end_char(v@, c),
{
    let n = v.len();
    let mut j: usize = n;
    assert(v@.subrange(0, n as int) =~= v@);
    while j > 0 && v[j - 1] == c
        invariant
            n == v.len(),
            j <= n,
            trim_end_char(v@, c) == trim_end_char(v@.subrange(0, j as int), c),
        decreases j,
    {
        assert(v@.subrange(0, j as int).drop_last() =~= v@.subrange(0, j - 1));
        j = j - 1;
    }
    assert(v@.subrange(0, n as int) =~= v@);
    slice_chars(v, 0, j)
}

/// `s` without one trailing `c`, if it ends with one.
pub open spec fn trim_end_char_once(s: Seq<char>, c: char) -> Seq<char> {
    if s.len() > 0 && s.last() == c {
        s.drop_last()
    } else {
        s
    }
}

/// `s` without one trailing `c`, if it ends with one.
pub fn strip_trailing_char(s: &str, c: char) -> (res: String)
    ensures
        res@ == trim_end_char_once(s@, c),
{
    let v = chars_of(s);
    let n = v.len();
    if n > 0 && v[n - 1] == c {
        string_of(&slice_chars(&v, 0, n - 1))
    } else {
        s.to_string()
    }
}

// ---------------------------------------------------------------------------
// Replacement, splitting and joining.
// ---------------------------------------------------------------------------

/// Every non-overlapping occurrence of `from` in `s`, scanning left to right,
/// replaced by `to` (as `str::replace` does for a non-empty pattern).
pub open spec fn replace_all(s: Seq<char>, from: Seq<char>, to: Seq<char>) -> Seq<char>
    decreases s.len(),
{
    if from.len() == 0 || s.len() < from.len() {
        s
    } else if s.subrange(0, from.len() as int) == from {
        to + replace_all(s.skip(from.len() as int), from, to)
    } else {
        seq![s[0]] + replace_all(s.drop_first(), from, to)
    }
}

/// `s` with every occurrence of `from` replaced by `to`.
pub fn str_replace(s: &str, from: &str, to: &str) -> (res: String)
    requires
        from@.len() > 0,
    ensures
        res@ == replace_all(s@, from@, to@),
{
    let v = chars_of(s);
    let f = chars_of(from);
    let mut out = String::new();
    let n = v.len();
    let mut i: usize = 0;
    assert(v@.skip(0) =~= v@);
    while i < n
        invariant
            n == v.len(),
            v@ == s@,
            f@ == from@,
            f.len() > 0,
            i <= n,
            out@ + replace_all(v@.skip(i as int), f@, to@) == replace_all(s@, from@, to@),
        decreases n - i,
    {
        let ghost rest = v@.skip(i as int);
        if f.len() <= n - i && occurs_at_exec(&v, &f, i) {
            assert(rest.subrange(0, f@.len() as int) =~= v@.subrange(i as int, i + f@.len()));
            assert(rest.skip(f@.len() as int) =~= v@.skip(i + f@.len()));
            let ghost before = out@;
            out.append(to);
            assert(out@ + replace_all(v@.skip(i + f@.len()), f@, to@) =~= before
                + replace_all(rest, f@, to@));
            i = i + f.len();
        } else {
            if f.len() <= n - i {
                assert(rest.subrange(0, f@.len() as int) =~= v@.subrange(i as int, i + f@.len()));
            }
            assert(rest.drop_first() =~= v@.skip(i + 1));
            let ghost before = out@;
            push_char(&mut out, v[i]);
            if f.len() <= n - i {
                assert(out@ + replace_all(v@.skip(i + 1), f@, to@) =~= before + replace_all(
                    rest,
                    f@,
                    to@,
                ));
            } else {
                assert(rest.len() < f@.len());
                assert(replace_all(rest, f@, to@) == rest);
                assert(replace_all(v@.skip(i + 1), f@, to@) == v@.skip(i + 1));
                assert(out@ + v@.skip(i + 1) =~= before + rest);
            }
            i = i + 1;
        }
    }
    assert(v@.skip(n as int) =~= Seq::<char>::empty());
    assert(out@ + Seq::<char>::empty() =~= out@);
    out
}

/// The pieces of `s` between occurrences of `c` (as `str::split` with a
/// character pattern): there is always at least one piece.
pub open spec fn split_char(s: Seq<char>, c: char) -> Seq<Seq<char>>
    decreases s.len(),
{
    if s.len() == 0 {
        seq![Seq::<char>::empty()]
    } else {
        let rest = split_char(s.drop_first(), c);
        if s[0] == c {
            seq![Seq::<char>::empty()] + rest
        } else {
            rest.update(0, seq![s[0]] + rest[0])
        }
    }
}

/// A split always yields at least one piece.
pub proof fn lemma_split_char_nonempty(s: Seq<char>, c: char)
    ensures
        split_char(s, c).len() >= 1,
    decreases s.len(),
{
    if s.len() > 0 {
        lemma_split_char_nonempty(s.drop_first(), c);
    }
}

/// The views of a sequence of strings.
pub open spec fn views(v: Seq<String>) -> Seq<Seq<char>> {
    v.map_values(|p: String| p@)
}

/// Splits `s` at every `c`.
pub fn str_split_char(s: &str, c: char) -> (res: Vec<String>)
    ensures
        views(res@) == split_char(s@, c),
{
    let v = chars_of(s);
    let n = v.len();
    // Walk backwards so that each piece is completed before it is prepended.
    let mut done: Vec<String> = Vec::new();
    let mut cur: Vec<char> = Vec::new();
    let mut i: usize = n;
    assert(v@.skip(n as int) =~= Seq::<char>::empty());
    assert(views(done@) =~= Seq::<Seq<char>>::empty());
    while i > 0
        invariant
            n == v.len(),
            v@ == s@,
            i <= n,
            split_char(v@.skip(i as int), c) == seq![cur@] + views(done@),
        decreases i,
    {
        let ch = v[i - 1];
        assert(v@.skip(i - 1).drop_first() =~= v@.skip(i as int));
        assert(v@.skip(i - 1)[0] == ch);
        if ch == c {
            let ghost old_done = done@;
            let piece = string_of(&cur);
            done.insert(0, piece);
            assert(views(done@) =~= seq![cur@] + views(old_done));
            cur = Vec::new();
            assert(split_char(v@.skip(i - 1), c) =~= seq![cur@] + views(done@));
        } else {
            let ghost old_cur = cur@;
            cur.insert(0, ch);
            assert(cur@ =~= seq![ch] + old_cur);
            assert(split_char(v@.skip(i - 1), c) =~= seq![cur@] + views(done@));
        }
        i = i - 1;
    }
    assert(v@.skip(0) =~= v@);
    let ghost old_done = done@;
    let first = string_of(&cur);
    done.insert(0, first);
    assert(views(done@) =~= seq![cur@] + views(old_done));
    done
}


// ---------------------------------------------------------------------------
// Ordering (the order of `str`'s `Ord`: lexicographic by character).
// ---------------------------------------------------------------------------

/// `a` sorts strictly before `b`.
pub open spec fn lex_lt(a: Seq<char>, b: Seq<char>) -> bool
    decreases a.len(),
{
    if a.len() == 0 {
        b.len() > 0
    } else if b.len() == 0 {
        false
    } else if a[0] != b[0] {
        a[0] < b[0]
    } else {
        lex_lt(a.drop_first(), b.drop_first())
    }
}

/// Whether `a` sorts strictly before `b`.
pub fn str_lt(a: &str, b: &str) -> (res: bool)
    ensures
        res == lex_lt(a@, b@),
{
    let va = chars_of(a);
    let vb = chars_of(b);
    let mut i: usize = 0;
    assert(va@.skip(0) =~= va@);
    assert(vb@.skip(0) =~= vb@);
    loop
        invariant
            i <= va.len(),
            i <= vb.len(),
            va@ == a@,
            vb@ == b@,
            lex_lt(a@, b@) == lex_lt(va@.skip(i as int), vb@.skip(i as int)),
        decreases va.len() - i,
    {
        if i == va.len() {
            return i < vb.len();
        }
        if i == vb.len() {
            return false;
        }
        if va[i] != vb[i] {
            return va[i] < vb[i];
        }
        assert(va@.skip(i as int).drop_first() =~= va@.skip(i + 1));
        assert(vb@.skip(i as int).drop_first() =~= vb@.skip(i + 1));
        i = i + 1;
    }
}

/// No string sorts before itself.
pub proof fn lemma_lex_lt_irreflexive(a: Seq<char>)
    ensures
        !lex_lt(a, a),
    decreases a.len(),
{
    if a.len() > 0 {
        lemma_lex_lt_irreflexive(a.drop_first());
    }
}

/// Of two different strings, one sorts before the other.
pub proof fn lemma_lex_lt_total(a: Seq<char>, b: Seq<char>)
    ensures
        a != b ==> (lex_lt(a, b) || lex_lt(b, a)),
    decreases a.len(),
{
    if a.len() > 0 && b.len() > 0 && a[0] == b[0] {
        lemma_lex_lt_total(a.drop_first(), b.drop_first());
        if a.drop_first() == b.drop_first() {
            assert(a =~= seq![a[0]] + a.drop_first());
            assert(b =~= seq![b[0]] + b.drop_first());
        }
    } else if a.len() == 0 && b.len() == 0 {
        assert(a =~= b);
    }
}

/// Sorting before is transitive.
pub proof fn lemma_lex_lt_transitive(a: Seq<char>, b: Seq<char>, c: Seq<char>)
    requires
        lex_lt(a, b),
        lex_lt(b, c),
    ensures
        lex_lt(a, c),
    decreases a.len(),
{
    if a.len() > 0 && b.len() > 0 && c.len() > 0 && a[0] == b[0] && b[0] == c[0] {
        lemma_lex_lt_transitive(a.drop_first(), b.drop_first(), c.drop_first());
    }
}

// ---------------------------------------------------------------------------
// Joining.
// ---------------------------------------------------------------------------

/// The pieces joined with `sep` between consecutive pieces (as `[..].join`).
pub open spec fn join(pieces: Seq<Seq<char>>, sep: Seq<char>) -> Seq<char>
    decreases pieces.len(),
{
    if pieces.len() == 0 {
        Seq::empty()
    } else if pieces.len() == 1 {
        pieces[0]
    } else {
        join(pieces.drop_last(), sep) + sep + pieces.last()
    }
}

/// The first piece of a split is the text before the first separator: a
/// prefix of `s` holding no separator, followed by a separator or by the end.
pub proof fn lemma_split_char_first(s: Seq<char>, c: char)
    ensures
        split_char(s, c).len() >= 1,
        split_char(s, c)[0].len() <= s.len(),
        s.take(split_char(s, c)[0].len() as int) == split_char(s, c)[0],
        split_char(s, c)[0].len() == s.len() || s[split_char(s, c)[0].len() as int] == c,
        forall|k: int| 0 <= k < split_char(s, c)[0].len() ==> #[trigger] split_char(s, c)[0][k] != c,
    decreases s.len(),
{
    lemma_split_char_nonempty(s, c);
    if s.len() > 0 {
        let t = s.drop_first();
        lemma_split_char_first(t, c);
        if s[0] != c {
            let p = split_char(s, c)[0];
            let q = split_char(t, c)[0];
            assert(p == seq![s[0]] + q);
            assert(s.take(p.len() as int) =~= seq![s[0]] + t.take(q.len() as int));
            assert forall|k: int| 0 <= k < p.len() implies #[trigger] p[k] != c by {
                if k > 0 {
                    assert(p[k] == q[k - 1]);
                }
            }
            if q.len() < t.len() {
                assert(s[p.len() as int] == t[q.len() as int]);
            }
        } else {
            assert(s.take(0) =~= Seq::<char>::empty());
        }
    }
}

/// An occurrence stays an occurrence, shifted, inside a longer text.
pub proof fn lemma_occurs_in_context(a: Seq<char>, s: Seq<char>, b: Seq<char>, p: Seq<char>, i: int)
    requires
        occurs_at(s, p, i),
    ensures
        occurs_at(a + s + b, p, a.len() + i),
{
    assert((a + s + b).subrange(a.len() + i, a.len() + i + p.len()) =~= s.subrange(i, i + p.len()));
}

/// Every piece occurs in the joined text.
pub proof fn lemma_join_contains(pieces: Seq<Seq<char>>, sep: Seq<char>, i: int)
    requires
        0 <= i < pieces.len(),
    ensures
        contains(join(pieces, sep), pieces[i]),
    decreases pieces.len(),
{
    if pieces.len() == 1 {
        assert(occurs_at(join(pieces, sep), pieces[i], 0)) by {
            assert(join(pieces, sep).subrange(0, pieces[0].len() as int) =~= pieces[0]);
        }
    } else {
        let front = join(pieces.drop_last(), sep);
        if i == pieces.len() - 1 {
            assert(pieces.last().subrange(0, pieces.last().len() as int) =~= pieces.last());
            lemma_occurs_in_context(front + sep, pieces.last(), Seq::empty(), pieces.last(), 0);
            assert(front + sep + pieces.last() + Seq::<char>::empty() =~= join(pieces, sep));
            assert(occurs_at(join(pieces, sep), pieces[i], (front + sep).len() as int));
        } else {
            lemma_join_contains(pieces.drop_last(), sep, i);
            let k = choose|k: int| occurs_at(front, pieces.drop_last()[i], k);
            lemma_occurs_in_context(Seq::empty(), front, sep + pieces.last(), pieces[i], k);
            assert(Seq::<char>::empty() + front + (sep + pieces.last()) =~= join(pieces, sep));
            assert(occurs_at(join(pieces, sep), pieces[i], k));
        }
    }
}

/// The strings of `v` joined with `sep`.
pub fn join_strings(v: &Vec<String>, sep: &str) -> (res: String)
    ensures
        res@ == join(views(v@), sep@),
{
    let mut out = String::new();
    let n = v.len();
    let mut i: usize = 0;
    while i < n
        invariant
            n == v.len(),
            i <= n,
            out@ == join(views(v@).take(i as int), sep@),
        decreases n - i,
    {
        let ghost before = out@;
        if i > 0 {
            out.append(sep);
        }
        out.append(v[i].as_str());
        assert(views(v@).take(i + 1).drop_last() =~= views(v@).take(i as int));
        assert(views(v@).take(i + 1).last() == v@[i as int]@);
        if i == 0 {
            assert(before =~= Seq::<char>::empty());
            assert(out@ =~= v@[0]@);
        }
        i = i + 1;
    }
    assert(views(v@).take(n as int) =~= views(v@));
    out
}

// ---------------------------------------------------------------------------
// Decimal numbers.
// ---------------------------------------------------------------------------

/// The decimal digit for `d < 10`.
pub open spec fn digit_char(d: nat) -> char {
    if d == 0 { '0' }
    else if d == 1 { '1' }
    else if d == 2 { '2' }
    else if d == 3 { '3' }
    else if d == 4 { '4' }
    else if d == 5 { '5' }
    else if d == 6 { '6' }
    else if d == 7 { '7' }
    else if d == 8 { '8' }
    else { '9' }
}

/// The decimal representation of `n`, without leading zeros (as integers'
/// `Display` writes it).
pub open spec fn decimal(n: nat) -> Seq<char>
    decreases n,
{
    if n < 10 {
        seq![digit_char(n)]
    } else {
        decimal(n / 10).push(digit_char(n % 10))
    }
}

fn digit_exec(d: u64) -> (c: char)
    requires
        d < 10,
    ensures
        c == digit_char(d as nat),
{
    if d == 0 { '0' }
    else if d == 1 { '1' }
    else if d == 2 { '2' }
    else if d == 3 { '3' }
    else if d == 4 { '4' }
    else if d == 5 { '5' }
    else if d == 6 { '6' }
    else if d == 7 { '7' }
    else if d == 8 { '8' }
    else { '9' }
}

/// The decimal representation of `n`.
pub fn u64_to_decimal(n: u64) -> (res: String)
    ensures
        res@ == decimal(n as nat),
    decreases n,
{
    if n < 10 {
        let mut s = String::new();
        push_char(&mut s, digit_exec(n));
        assert(s@ =~= seq![digit_char(n as nat)]);
        s
    } else {
        let mut s = u64_to_decimal(n / 10);
        push_char(&mut s, digit_exec(n % 10));
        s
    }
}

} // verus!
