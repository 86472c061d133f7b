//! Text primitives with their mathematical models: character access,
//! equality, substring search, lexicographic order, line splitting,
//! trailing-whitespace trimming, joining, and an append-only writer whose
//! output is tracked as a sequence of fragments.

use vstd::prelude::*;
use vstd::seq_lib::lemma_flatten_concat;

verus! {

/// The line terminator written after every emitted line.
pub open spec fn nl() -> Seq<char> {
    "\n"@
}

/// `f` followed by the fragment `s`.
pub open spec fn frag(f: Seq<Seq<char>>, s: Seq<char>) -> Seq<Seq<char>> {
    f.push(s)
}

/// `f` followed by the line `s` and its terminator.
pub open spec fn line(f: Seq<Seq<char>>, s: Seq<char>) -> Seq<Seq<char>> {
    f.push(s).push(nl())
}

/// `f` followed by an empty line.
pub open spec fn blank_line(f: Seq<Seq<char>>) -> Seq<Seq<char>> {
    f.push(nl())
}

pub broadcast proof fn lemma_frag_after(f: Seq<Seq<char>>, g: Seq<Seq<char>>, s: Seq<char>)
    ensures
        #[trigger] frag(f + g, s) == f + frag(g, s),
{
    assert(frag(f + g, s) =~= f + frag(g, s));
}

pub broadcast proof fn lemma_line_after(f: Seq<Seq<char>>, g: Seq<Seq<char>>, s: Seq<char>)
    ensures
        #[trigger] line(f + g, s) == f + line(g, s),
{
    assert(line(f + g, s) =~= f + line(g, s));
}

pub broadcast proof fn lemma_blank_after(f: Seq<Seq<char>>, g: Seq<Seq<char>>)
    ensures
        #[trigger] blank_line(f + g) == f + blank_line(g),
{
    assert(blank_line(f + g) =~= f + blank_line(g));
}

pub broadcast proof fn lemma_concat_after(f: Seq<Seq<char>>, g: Seq<Seq<char>>, h: Seq<Seq<char>>)
    ensures
        #[trigger] ((f + g) + h) == f + (g + h),
{
    assert((f + g) + h =~= f + (g + h));
}

/// Writing after `f + g` is writing after `g`, with `f` in front.
pub broadcast group group_writes_after {
    lemma_frag_after,
    lemma_line_after,
    lemma_blank_after,
    lemma_concat_after,
}

/// The characters of `s`, in order.
pub fn to_chars(s: &str) -> (v: Vec<char>)
    ensures
        v@ == s@,
{
    let mut v: Vec<char> = Vec::new();
    for c in it: s.chars()
        invariant
            v@ == it.seq().take(it.index() as int),
            it.seq() == s@,
    {
        v.push(c);
    }
    v
}

/// Whether `a` and `b` hold the same characters.
pub fn str_eq(a: &str, b: &str) -> (r: bool)
    ensures
        r == (a@ == b@),
{
    let x = to_chars(a);
    let y = to_chars(b);
    if x.len() != y.len() {
        return false;
    }
    let mut i: usize = 0;
    while i < x.len()
        invariant
            x@ == a@,
            y@ == b@,
            x.len() == y.len(),
            i <= x.len(),
            forall|k: int| 0 <= k < i ==> x@[k] == y@[k],
        decreases x.len() - i,
    {
        if x[i] != y[i] {
            return false;
        }
        i = i + 1;
    }
    proof {
        assert(x@ =~= y@);
    }
    true
}

/// `pat` occurs in `s` starting at index `i`.
pub open spec fn occurs_at(s: Seq<char>, pat: Seq<char>, i: int) -> bool {
    0 <= i && i + pat.len() <= s.len() && s.subrange(i, i + pat.len()) == pat
}

/// `pat` occurs somewhere in `s` (the empty pattern occurs everywhere).
pub open spec fn contains_seq(s: Seq<char>, pat: Seq<char>) -> bool {
    exists|i: int| occurs_at(s, pat, i)
}

fn matches_at(s: &Vec<char>, p: &Vec<char>, i: usize) -> (r: bool)
    requires
        i + p@.len() <= s@.len(),
    ensures
        r == (s@.subrange(i as int, i + p@.len()) == p@),
{
    let sl = s.len();
    let mut k: usize = 0;
    while k < p.len()
        invariant
            sl == s@.len(),
            i + p@.len() <= s@.len(),
            k <= p@.len(),
            forall|t: int| 0 <= t < k ==> s@[i + t] == p@[t],
        decreases p.len() - k,
    {
        if s[i + k] != p[k] {
            proof {
                assert(s@.subrange(i as int, i + p@.len())[k as int] != p@[k as int]);
            }
            return false;
        }
        k = k + 1;
    }
    proof {
        assert(s@.subrange(i as int, i + p@.len()) =~= p@);
    }
    true
}

/// Whether `needle` occurs in `hay`.
pub fn str_contains(hay: &str, needle: &str) -> (r: bool)
    ensures
        r == contains_seq(hay@, needle@),
{
    let s = to_chars(hay);
    let p = to_chars(needle);
    if p.len() == 0 {
        proof {
            assert(s@.subrange(0, 0) =~= p@);
            assert(occurs_at(s@, p@, 0));
        }
        return true;
    }
    if p.len() > s.len() {
        return false;
    }
    let stop = s.len() - p.len() + 1;
    let mut i: usize = 0;
    while i < stop
        invariant
            s@ == hay@,
            p@ == needle@,
            stop == s@.len() - p@.len() + 1,
            forall|k: int| 0 <= k < i ==> !occurs_at(s@, p@, k),
        decreases stop - i,
    {
        if matches_at(&s, &p, i) {
            proof {
                assert(occurs_at(s@, p@, i as int));
            }
            return true;
        }
        i = i + 1;
    }
    proof {
        assert forall|k: int| !occurs_at(s@, p@, k) by {
            if 0 <= k && k < stop {
            }
        }
    }
    false
}

// ---------------------------------------------------------------------------
// Lexicographic order on character sequences (code-point order, which is the
// order of their UTF-8 encodings compared byte by byte).
// ---------------------------------------------------------------------------

/// `a` sorts strictly before `b`.
pub open spec fn lex_lt(a: Seq<char>, b: Seq<char>) -> bool
    decreases a.len(),
{
    if b.len() == 0 {
        false
    } else if a.len() == 0 {
        true
    } else if a[0] != b[0] {
        a[0] < b[0]
    } else {
        lex_lt(a.drop_first(), b.drop_first())
    }
}

pub proof fn lemma_lex_irreflexive(a: Seq<char>)
    ensures
        !lex_lt(a, a),
    decreases a.len(),
{
    if a.len() > 0 {
        lemma_lex_irreflexive(a.drop_first());
    }
}

pub proof fn lemma_lex_asymmetric(a: Seq<char>, b: Seq<char>)
    requires
        lex_lt(a, b),
    ensures
        !lex_lt(b, a),
    decreases a.len(),
{
    if a.len() > 0 && b.len() > 0 && a[0] == b[0] {
        lemma_lex_asymmetric(a.drop_first(), b.drop_first());
    }
}

pub proof fn lemma_lex_transitive(a: Seq<char>, b: Seq<char>, c: Seq<char>)
    requires
        lex_lt(a, b),
        lex_lt(b, c),
    ensures
        lex_lt(a, c),
    decreases a.len(),
{
    if a.len() > 0 && b.len() > 0 && c.len() > 0 && a[0] == b[0] && b[0] == c[0] {
        lemma_lex_transitive(a.drop_first(), b.drop_first(), c.drop_first());
    }
}

pub proof fn lemma_lex_total(a: Seq<char>, b: Seq<char>)
    ensures
        a == b || lex_lt(a, b) || lex_lt(b, a),
    decreases a.len(),
{
    if a.len() > 0 && b.len() > 0 && a[0] == b[0] {
        lemma_lex_total(a.drop_first(), b.drop_first());
        if a.drop_first() == b.drop_first() {
            assert(a =~= seq![a[0]] + a.drop_first());
            assert(b =~= seq![b[0]] + b.drop_first());
        }
    } else if a.len() == 0 && b.len() == 0 {
        assert(a =~= b);
    }
}

/// Whether the characters `a` sort strictly before the characters `b`.
pub fn chars_lt(a: &Vec<char>, b: &Vec<char>) -> (r: bool)
    ensures
        r == lex_lt(a@, b@),
{
    let mut i: usize = 0;
    proof {
        assert(a@.skip(0) =~= a@);
        assert(b@.skip(0) =~= b@);
    }
    while i < a.len() && i < b.len()
        invariant
            i <= a@.len(),
            i <= b@.len(),
            lex_lt(a@, b@) == lex_lt(a@.skip(i as int), b@.skip(i as int)),
        decreases a.len() - i,
    {
        if a[i] != b[i] {
            let ai = a[i];
            let bi = b[i];
            return ai < bi;
        }
        proof {
            assert(a@.skip(i as int).drop_first() =~= a@.skip(i + 1));
            assert(b@.skip(i as int).drop_first() =~= b@.skip(i + 1));
        }
        i = i + 1;
    }
    i < b.len()
}

/// Every element sorts strictly before every later one (so none repeats).
pub open spec fn strictly_sorted(s: Seq<Seq<char>>) -> bool {
    forall|i: int, j: int| 0 <= i < j < s.len() ==> lex_lt(#[trigger] s[i], #[trigger] s[j])
}

/// Two strictly sorted sequences with the same members are equal.
pub proof fn lemma_sorted_unique(s: Seq<Seq<char>>, t: Seq<Seq<char>>)
    requires
        strictly_sorted(s),
        strictly_sorted(t),
        forall|x: Seq<char>| s.contains(x) <==> t.contains(x),
    ensures
        s == t,
    decreases s.len(),
{
    if s.len() == 0 {
        if t.len() > 0 {
            assert(t.contains(t[0]));
        }
        assert(s =~= t);
    } else {
        assert(s.contains(s[0]));
        assert(t.len() > 0);
        assert(t.contains(t[0]));
        // Both heads are the least member.
        let ks = choose|k: int| 0 <= k < s.len() && s[k] == t[0];
        let kt = choose|k: int| 0 <= k < t.len() && t[k] == s[0];
        if s[0] != t[0] {
            assert(ks > 0);
            assert(kt > 0);
            assert(lex_lt(s[0], s[ks]));
            assert(lex_lt(t[0], t[kt]));
            lemma_lex_asymmetric(s[0], t[0]);
            assert(false);
        }
        let s2 = s.drop_first();
        let t2 = t.drop_first();
        assert forall|x: Seq<char>| s2.contains(x) <==> t2.contains(x) by {
            if s2.contains(x) {
                let k = choose|k: int| 0 <= k < s2.len() && s2[k] == x;
                assert(lex_lt(s[0], s[k + 1]));
                lemma_lex_irreflexive(x);
                assert(x != s[0]);
                assert(s.contains(x));
                assert(t.contains(x));
                let m = choose|m: int| 0 <= m < t.len() && t[m] == x;
                assert(m != 0);
                assert(t2[m - 1] == x);
            }
            if t2.contains(x) {
                let k = choose|k: int| 0 <= k < t2.len() && t2[k] == x;
                assert(lex_lt(t[0], t[k + 1]));
                lemma_lex_irreflexive(x);
                assert(x != t[0]);
                assert(t.contains(x));
                assert(s.contains(x));
                let m = choose|m: int| 0 <= m < s.len() && s[m] == x;
                assert(m != 0);
                assert(s2[m - 1] == x);
            }
        }
        lemma_sorted_unique(s2, t2);
        assert(s =~= seq![s[0]] + s2);
        assert(t =~= seq![t[0]] + t2);
    }
}

/// Any two elements at different positions are ordered one way or the other.
pub open spec fn pairwise_ordered(s: Seq<Seq<char>>) -> bool {
    forall|j: int, k: int|
        0 <= j < k < s.len() ==> lex_lt(#[trigger] s[j], #[trigger] s[k]) || lex_lt(s[k], s[j])
}

/// Elements that are ordered one way or the other are different.
pub proof fn lemma_pairwise_ordered_distinct(s: Seq<Seq<char>>)
    requires
        pairwise_ordered(s),
    ensures
        forall|j: int, k: int| 0 <= j < k < s.len() ==> #[trigger] s[j] != #[trigger] s[k],
{
    assert forall|j: int, k: int| 0 <= j < k < s.len() implies #[trigger] s[j] != #[trigger] s[k] by {
        lemma_lex_irreflexive(s[j]);
    }
}

/// Each element sorting strictly before the next makes the whole sequence
/// strictly sorted.
pub proof fn lemma_chain_strictly_sorted(s: Seq<Seq<char>>)
    requires
        forall|k: int| 0 <= k < s.len() - 1 ==> lex_lt(#[trigger] s[k], s[k + 1]),
    ensures
        strictly_sorted(s),
    decreases s.len(),
{
    if s.len() > 1 {
        let t = s.drop_last();
        assert forall|k: int| 0 <= k < t.len() - 1 implies lex_lt(#[trigger] t[k], t[k + 1]) by {
            assert(t[k] == s[k] && t[k + 1] == s[k + 1]);
        }
        lemma_chain_strictly_sorted(t);
        let n = s.len() - 1;
        assert forall|i: int, j: int| 0 <= i < j < s.len() implies lex_lt(
            #[trigger] s[i],
            #[trigger] s[j],
        ) by {
            if j < n {
                assert(t[i] == s[i] && t[j] == s[j]);
            } else if i < n - 1 {
                assert(t[i] == s[i] && t[n - 1] == s[n - 1]);
                assert(lex_lt(s[i], s[n - 1]));
                lemma_lex_transitive(s[i], s[n - 1], s[n]);
            }
        }
    }
}

/// The character views of a sequence of strings.
pub open spec fn views(v: Seq<String>) -> Seq<Seq<char>> {
    v.map_values(|x: String| x@)
}

/// Inserts `item` into the strictly sorted `set`, keeping it strictly sorted;
/// nothing changes when an equal element is already there.
pub fn insert_sorted(set: &mut Vec<String>, item: &str)
    requires
        strictly_sorted(views(old(set)@)),
    ensures
        strictly_sorted(views(final(set)@)),
        forall|x: Seq<char>|
            views(final(set)@).contains(x) <==> (views(old(set)@).contains(x) || x == item@),
{
    let key = to_chars(item);
    let ghost old_v = views(set@);
    let mut i: usize = 0;
    while i < set.len()
        invariant
            key@ == item@,
            views(set@) == old_v,
            strictly_sorted(old_v),
            i <= set@.len(),
            forall|k: int| 0 <= k < i ==> lex_lt(#[trigger] old_v[k], item@),
        ensures
            i <= set@.len(),
            forall|k: int| 0 <= k < i ==> lex_lt(#[trigger] old_v[k], item@),
            i < set@.len() ==> !lex_lt(old_v[i as int], item@),
        decreases set.len() - i,
    {
        let cur = to_chars(set[i].as_str());
        proof {
            assert(old_v[i as int] == set@[i as int]@);
        }
        if !chars_lt(&cur, &key) {
            break;
        }
        i = i + 1;
    }
    if i < set.len() {
        let cur = to_chars(set[i].as_str());
        if str_eq(set[i].as_str(), item) {
            proof {
                assert(old_v[i as int] == item@);
                assert forall|x: Seq<char>|
                    views(set@).contains(x) <==> (old_v.contains(x) || x == item@) by {
                    if x == item@ {
                        assert(old_v[i as int] == x);
                    }
                }
            }
            return ;
        }
        proof {
            assert(old_v[i as int] == cur@);
            lemma_lex_total(cur@, item@);
            assert(lex_lt(item@, old_v[i as int]));
        }
    }
    let ghost at = i as int;
    set.insert(i, item.to_owned());
    proof {
        let nv = views(set@);
        assert(nv =~= old_v.insert(at, item@));
        assert forall|a: int, b: int| 0 <= a < b < nv.len() implies lex_lt(
            #[trigger] nv[a],
            #[trigger] nv[b],
        ) by {
            if b < at {
            } else if b == at {
            } else if a < at {
                // nv[a] < item < old_v[at] <= old_v[b - 1]
                if b - 1 > at {
                    assert(lex_lt(old_v[at], old_v[b - 1]));
                    lemma_lex_transitive(item@, old_v[at], old_v[b - 1]);
                }
                lemma_lex_transitive(nv[a], item@, old_v[b - 1]);
            } else if a == at {
                if b - 1 > at {
                    assert(lex_lt(old_v[at], old_v[b - 1]));
                    lemma_lex_transitive(item@, old_v[at], old_v[b - 1]);
                }
            } else {
                assert(lex_lt(old_v[a - 1], old_v[b - 1]));
            }
        }
        assert forall|x: Seq<char>| nv.contains(x) <==> (old_v.contains(x) || x == item@) by {
            if nv.contains(x) {
                let k = choose|k: int| 0 <= k < nv.len() && nv[k] == x;
                if k < at {
                    assert(old_v[k] == x);
                } else if k > at {
                    assert(old_v[k - 1] == x);
                }
            }
            if old_v.contains(x) {
                let k = choose|k: int| 0 <= k < old_v.len() && old_v[k] == x;
                if k < at {
                    assert(nv[k] == x);
                } else {
                    assert(nv[k + 1] == x);
                }
            }
            if x == item@ {
                assert(nv[at] == x);
            }
        }
    }
}

// ---------------------------------------------------------------------------
// Line splitting, as `str::lines` does it: lines end at `\n`, a `\r` right
// before that `\n` is dropped, and a final line needs no terminator.
// ---------------------------------------------------------------------------

/// Index of the first `\n` at or after `i`, or `s.len()` when there is none.
pub open spec fn line_end(s: Seq<char>, i: int) -> int
    decreases s.len() - i,
{
    if i >= s.len() {
        s.len() as int
    } else if s[i] == '\n' {
        i
    } else {
        line_end(s, i + 1)
    }
}

pub proof fn lemma_line_end_bounds(s: Seq<char>, i: int)
    requires
        0 <= i <= s.len(),
    ensures
        i <= line_end(s, i) <= s.len(),
        line_end(s, i) < s.len() ==> s[line_end(s, i)] == '\n',
    decreases s.len() - i,
{
    if i < s.len() && s[i] != '\n' {
        lemma_line_end_bounds(s, i + 1);
    }
}

/// The line that starts at `i`, without its terminator.
pub open spec fn line_at(s: Seq<char>, i: int) -> Seq<char> {
    let j = line_end(s, i);
    if j < s.len() && j > i && s[j - 1] == '\r' {
        s.subrange(i, j - 1)
    } else {
        s.subrange(i, j)
    }
}

/// The lines of `s` from index `i` on.
pub open spec fn lines_from(s: Seq<char>, i: int) -> Seq<Seq<char>>
    decreases s.len() - i,
{
    if i < 0 || i >= s.len() {
        Seq::empty()
    } else {
        let j = line_end(s, i);
        if j < s.len() {
            proof {
                lemma_line_end_bounds(s, i);
            }
            seq![line_at(s, i)] + lines_from(s, j + 1)
        } else {
            seq![line_at(s, i)]
        }
    }
}

/// The lines of `s`.
pub open spec fn lines_of(s: Seq<char>) -> Seq<Seq<char>> {
    lines_from(s, 0)
}

/// Fragments that write every line of `ls` after `indent`, each followed by a
/// line terminator.
pub open spec fn indented(indent: Seq<char>, ls: Seq<Seq<char>>) -> Seq<Seq<char>>
    decreases ls.len(),
{
    if ls.len() == 0 {
        Seq::empty()
    } else {
        indented(indent, ls.drop_last()) + seq![indent, ls.last(), nl()]
    }
}

// ---------------------------------------------------------------------------
// Trailing whitespace.
// ---------------------------------------------------------------------------

/// Unicode `White_Space`, as `char::is_whitespace` decides it.
pub open spec fn is_white(c: char) -> bool {
    ||| '\t' <= c <= '\r'
    ||| c == ' '
    ||| c == '\u{85}'
    ||| c == '\u{a0}'
    ||| c == '\u{1680}'
    ||| '\u{2000}' <= c <= '\u{200a}'
    ||| c == '\u{2028}'
    ||| c == '\u{2029}'
    ||| c == '\u{202f}'
    ||| c == '\u{205f}'
    ||| c == '\u{3000}'
}

fn is_white_exec(c: char) -> (r: bool)
    ensures
        r == is_white(c),
{
    ('\t' <= c && c <= '\r') || c == ' ' || c == '\u{85}' || c == '\u{a0}' || c == '\u{1680}'
        || ('\u{2000}' <= c && c <= '\u{200a}') || c == '\u{2028}' || c == '\u{2029}' || c
        == '\u{202f}' || c == '\u{205f}' || c == '\u{3000}'
}

/// `s` without its trailing whitespace.
pub open spec fn trim_end(s: Seq<char>) -> Seq<char>
    decreases s.len(),
{
    if s.len() > 0 && is_white(s.last()) {
        trim_end(s.drop_last())
    } else {
        s
    }
}

pub proof fn lemma_trim_end_shape(s: Seq<char>)
    ensures
        trim_end(s).len() <= s.len(),
        trim_end(s) == s.take(trim_end(s).len() as int),
        trim_end(s).len() > 0 ==> !is_white(trim_end(s).last()),
    decreases s.len(),
{
    if s.len() > 0 && is_white(s.last()) {
        lemma_trim_end_shape(s.drop_last());
        assert(s.drop_last().take(trim_end(s).len() as int) =~= s.take(
            trim_end(s).len() as int,
        ));
    } else {
        assert(s.take(s.len() as int) =~= s);
    }
}

/// Trimming keeps every character up to the last one that is not whitespace.
pub proof fn lemma_trim_end_keeps(s: Seq<char>, j: int)
    requires
        0 <= j < s.len(),
        !is_white(s[j]),
    ensures
        trim_end(s).len() > j,
    decreases s.len(),
{
    if is_white(s.last()) {
        lemma_trim_end_keeps(s.drop_last(), j);
    }
}

/// `s` with its trailing whitespace replaced by a single line terminator.
pub fn finish_text(s: String) -> (r: String)
    ensures
        r@ == trim_end(s@) + nl(),
{
    let v = to_chars(s.as_str());
    let mut k: usize = v.len();
    proof {
        assert(v@.take(k as int) =~= v@);
    }
    while k > 0 && is_white_exec(v[k - 1])
        invariant
            v@ == s@,
            k <= v@.len(),
            trim_end(s@) == trim_end(v@.take(k as int)),
        decreases k,
    {
        proof {
            assert(v@.take(k as int).drop_last() =~= v@.take(k - 1));
        }
        k = k - 1;
    }
    proof {
        if k > 0 {
            assert(v@.take(k as int).last() == v@[k - 1]);
        }
        assert(trim_end(v@.take(k as int)) == v@.take(k as int));
        assert(v@.take(k as int) =~= s@.subrange(0, k as int));
    }
    let kept = s.as_str().substring_char(0, k);
    let mut r = kept.to_owned();
    r.append("\n");
    r
}

// ---------------------------------------------------------------------------
// Joining.
// ---------------------------------------------------------------------------

/// `parts` with `sep` between neighbours.
pub open spec fn join(parts: Seq<Seq<char>>, sep: Seq<char>) -> Seq<char>
    decreases parts.len(),
{
    if parts.len() == 0 {
        Seq::empty()
    } else if parts.len() == 1 {
        parts[0]
    } else {
        join(parts.drop_last(), sep) + sep + parts.last()
    }
}

pub proof fn lemma_join_push(parts: Seq<Seq<char>>, x: Seq<char>, sep: Seq<char>)
    ensures
        join(parts.push(x), sep) == if parts.len() == 0 {
            x
        } else {
            join(parts, sep) + sep + x
        },
{
    assert(parts.push(x).drop_last() =~= parts);
}

/// The character views of a sequence of string slices.
pub open spec fn strs(v: Seq<&str>) -> Seq<Seq<char>> {
    v.map_values(|x: &str| x@)
}

// ---------------------------------------------------------------------------
// An append-only writer.
// ---------------------------------------------------------------------------

/// Output under construction. Its text is the text it started from followed
/// by every fragment written since, in order.
pub struct TextWriter {
    out: String,
    start: Ghost<Seq<char>>,
    written: Ghost<Seq<Seq<char>>>,
}

impl TextWriter {
    /// The text the writer started from.
    pub closed spec fn base(&self) -> Seq<char> {
        self.start@
    }

    /// The fragments written so far.
    pub closed spec fn frags(&self) -> Seq<Seq<char>> {
        self.written@
    }

    pub closed spec fn wf(&self) -> bool {
        self.out@ == self.start@ + self.written@.flatten()
    }

    /// A writer that continues `s`.
    pub fn new(s: String) -> (w: TextWriter)
        ensures
            w.wf(),
            w.base() == s@,
            w.frags() == Seq::<Seq<char>>::empty(),
    {
        let ghost b = s@;
        let w = TextWriter { out: s, start: Ghost(b), written: Ghost(Seq::empty()) };
        proof {
            assert(w.out@ =~= b + Seq::<Seq<char>>::empty().flatten());
        }
        w
    }

    /// Writes `s`.
    pub fn put(&mut self, s: &str)
        requires
            old(self).wf(),
        ensures
            final(self).wf(),
            final(self).base() == old(self).base(),
            final(self).frags() == frag(old(self).frags(), s@),
    {
        let ghost before = self.written@;
        self.out.append(s);
        self.written = Ghost(before.push(s@));
        proof {
            before.lemma_flatten_push(s@);
            assert(self.out@ =~= self.start@ + self.written@.flatten());
        }
    }

    /// Writes `s` and a line terminator.
    pub fn put_ln(&mut self, s: &str)
        requires
            old(self).wf(),
        ensures
            final(self).wf(),
            final(self).base() == old(self).base(),
            final(self).frags() == line(old(self).frags(), s@),
    {
        self.put(s);
        self.put("\n");
    }

    /// Writes an empty line.
    pub fn blank(&mut self)
        requires
            old(self).wf(),
        ensures
            final(self).wf(),
            final(self).base() == old(self).base(),
            final(self).frags() == blank_line(old(self).frags()),
    {
        self.put("\n");
    }

    /// Writes every line of `text` after `indent`, each with a terminator.
    pub fn put_indented_lines(&mut self, indent: &str, text: &str)
        requires
            old(self).wf(),
        ensures
            final(self).wf(),
            final(self).base() == old(self).base(),
            final(self).frags() == old(self).frags() + indented(indent@, lines_of(text@)),
    {
        let v = to_chars(text);
        let n = v.len();
        let ghost s = text@;
        let ghost f0 = self.frags();
        let ghost mut done: Seq<Seq<char>> = Seq::empty();
        let mut i: usize = 0;
        proof {
            assert(done + lines_from(s, 0) =~= lines_from(s, 0));
            assert(f0 + indented(indent@, done) =~= f0);
        }
        while i < n
            invariant
                v@ == s,
                s == text@,
                n == s.len(),
                i <= n,
                self.wf(),
                self.frags() == f0 + indented(indent@, done),
                self.base() == old(self).base(),
                f0 == old(self).frags(),
                done + lines_from(s, i as int) == lines_of(s),
            decreases n - i,
        {
            let mut j: usize = i;
            while j < n && v[j] != '\n'
                invariant
                    v@ == s,
                    n == s.len(),
                    i <= j <= n,
                    line_end(s, i as int) == line_end(s, j as int),
                decreases n - j,
            {
                j = j + 1;
            }
            proof {
                lemma_line_end_bounds(s, i as int);
                assert(line_end(s, i as int) == j);
            }
            let stop = if j < n && j > i && v[j - 1] == '\r' {
                j - 1
            } else {
                j
            };
            let line = text.substring_char(i, stop);
            proof {
                assert(line@ == line_at(s, i as int));
                let rest = if j < n { lines_from(s, j + 1) } else { Seq::empty() };
                assert(lines_from(s, i as int) =~= seq![line_at(s, i as int)] + rest);
                assert(done.push(line@) + rest =~= done + (seq![line_at(s, i as int)] + rest));
                assert(indented(indent@, done.push(line@)).len() >= 0);
                assert(done.push(line@).drop_last() =~= done);
            }
            self.put(indent);
            self.put(line);
            self.put("\n");
            proof {
                let d2 = done.push(line@);
                assert(indented(indent@, d2) == indented(indent@, done) + seq![
                    indent@,
                    line@,
                    nl(),
                ]);
                assert(self.frags() =~= f0 + indented(indent@, d2));
                done = d2;
            }
            if j < n {
                i = j + 1;
            } else {
                proof {
                    assert(lines_from(s, n as int) =~= Seq::<Seq<char>>::empty());
                }
                i = n;
            }
        }
        proof {
            assert(lines_from(s, n as int) =~= Seq::<Seq<char>>::empty());
            assert(done =~= lines_of(s));
        }
    }

    /// Ends writing and hands back the text.
    pub fn finish(self) -> (r: String)
        requires
            self.wf(),
        ensures
            r@ == self.base() + self.frags().flatten(),
    {
        self.out
    }
}

/// Flattening distributes over concatenation of fragment sequences.
pub proof fn lemma_flatten_add(x: Seq<Seq<char>>, y: Seq<Seq<char>>)
    ensures
        (x + y).flatten() == x.flatten() + y.flatten(),
{
    lemma_flatten_concat(x, y);
}

} // verus!
