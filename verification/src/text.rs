//! Character-level helpers on strings, each with its mathematical meaning.

use vstd::prelude::*;

verus! {

/// The characters of an optional string.
pub open spec fn opt_str_view(o: Option<&str>) -> Option<Seq<char>> {
    match o {
        Some(s) => Some(s@),
        None => None,
    }
}

/// The index of the first `c` in `s[from..to)`, if there is one.
pub open spec fn first_index_in(s: Seq<char>, c: char, from: int, to: int) -> Option<int>
    decreases to - from,
{
    if from >= to {
        None
    } else if s[from] == c {
        Some(from)
    } else {
        first_index_in(s, c, from + 1, to)
    }
}

/// `first_index_in` finds exactly the first occurrence.
pub proof fn lemma_first_index_in(s: Seq<char>, c: char, from: int, to: int)
    requires
        0 <= from <= to <= s.len(),
    ensures
        match first_index_in(s, c, from, to) {
            Some(i) => from <= i < to && s[i] == c && forall|j: int| from <= j < i ==> s[j] != c,
            None => forall|j: int| from <= j < to ==> s[j] != c,
        },
    decreases to - from,
{
    if from < to && s[from] != c {
        lemma_first_index_in(s, c, from + 1, to);
    }
}

/// Conversely, an index with no `c` before it in the range is what `first_index_in` finds.
pub proof fn lemma_first_index_in_at(s: Seq<char>, c: char, from: int, to: int, k: int)
    requires
        0 <= from <= k <= to <= s.len(),
        forall|j: int| from <= j < k ==> s[j] != c,
        k < to ==> s[k] == c,
    ensures
        first_index_in(s, c, from, to) == (if k < to { Some(k) } else { None::<int> }),
    decreases k - from,
{
    if from < k {
        lemma_first_index_in_at(s, c, from + 1, to, k);
    }
}

/// Finds the first `c` among the characters `s[from..to)`.
pub fn find_char_in(s: &str, c: char, from: usize, to: usize) -> (r: Option<usize>)
    requires
        from <= to <= s@.len(),
    ensures
        r == (match first_index_in(s@, c, from as int, to as int) {
            Some(i) => Some(i as usize),
            None => None::<usize>,
        }),
{
    let mut i = from;
    while i < to
        invariant
            from <= i <= to <= s@.len(),
            first_index_in(s@, c, from as int, to as int) == first_index_in(s@, c, i as int, to as int),
        decreases to - i,
    {
        if s.get_char(i) == c {
            return Some(i);
        }
        i = i + 1;
    }
    None
}

/// Character-wise equality of two strings.
pub fn str_equal(a: &str, b: &str) -> (r: bool)
    ensures
        r == (a@ == b@),
{
    let n = a.unicode_len();
    if n != b.unicode_len() {
        return false;
    }
    let mut i: usize = 0;
    while i < n
        invariant
            n == a@.len(),
            n == b@.len(),
            i <= n,
            forall|j: int| 0 <= j < i ==> a@[j] == b@[j],
        decreases n - i,
    {
        if a.get_char(i) != b.get_char(i) {
            assert(a@[i as int] != b@[i as int]);
            return false;
        }
        i = i + 1;
    }
    assert(a@ =~= b@);
    true
}

/// `s` with every occurrence of `pat` replaced by `rep`, occurrences taken
/// from the left without overlap.
pub open spec fn replaced(s: Seq<char>, pat: Seq<char>, rep: Seq<char>) -> Seq<char>
    decreases s.len(),
{
    if s.len() == 0 {
        Seq::empty()
    } else if pat.len() > 0 && pat.is_prefix_of(s) {
        rep + replaced(s.skip(pat.len() as int), pat, rep)
    } else {
        seq![s[0]] + replaced(s.skip(1), pat, rep)
    }
}

/// Whether `pat` occurs in `s` at character position `i`.
fn occurs_at(s: &str, n: usize, pat: &str, m: usize, i: usize) -> (r: bool)
    requires
        n == s@.len(),
        m == pat@.len(),
        i <= n,
    ensures
        r == (pat@.is_prefix_of(s@.skip(i as int))),
{
    if m > n - i {
        return false;
    }
    let mut j: usize = 0;
    while j < m
        invariant
            n == s@.len(),
            m == pat@.len(),
            i + m <= n,
            j <= m,
            forall|k: int| 0 <= k < j ==> pat@[k] == s@[i + k],
        decreases m - j,
    {
        if pat.get_char(j) != s.get_char(i + j) {
            assert(s@.skip(i as int).subrange(0, m as int)[j as int] == s@[i + j]);
            return false;
        }
        j = j + 1;
    }
    assert(pat@ =~= s@.skip(i as int).subrange(0, m as int));
    true
}

/// `s` with every occurrence of the non-empty `pat` replaced by `rep`.
pub fn replace_all(s: &str, pat: &str, rep: &str) -> (r: String)
    requires
        pat@.len() > 0,
    ensures
        r@ == replaced(s@, pat@, rep@),
{
    let n = s.unicode_len();
    let m = pat.unicode_len();
    let mut out = String::new();
    let mut i: usize = 0;
    assert(s@.skip(0) =~= s@);
    while i < n
        invariant
            n == s@.len(),
            m == pat@.len(),
            m > 0,
            i <= n,
            out@ + replaced(s@.skip(i as int), pat@, rep@) == replaced(s@, pat@, rep@),
        decreases n - i,
    {
        let ghost rest = s@.skip(i as int);
        if occurs_at(s, n, pat, m, i) {
            assert(rest.skip(m as int) =~= s@.skip(i + m));
            assert(out@ + rep@ + replaced(s@.skip(i + m), pat@, rep@) =~= out@ + replaced(
                rest,
                pat@,
                rep@,
            ));
            out.append(rep);
            i = i + m;
        } else {
            let one = s.substring_char(i, i + 1);
            assert(rest.skip(1) =~= s@.skip(i + 1));
            assert(one@ =~= seq![rest[0]]);
            assert(out@ + one@ + replaced(s@.skip(i + 1), pat@, rep@) =~= out@ + replaced(
                rest,
                pat@,
                rep@,
            ));
            out.append(one);
            i = i + 1;
        }
    }
    assert(s@.skip(n as int) =~= Seq::<char>::empty());
    assert(out@ =~= out@ + replaced(s@.skip(n as int), pat@, rep@));
    out
}

/// Characters that cannot start `pat` pass through the replacement unchanged.
pub proof fn lemma_replaced_prefix_free(x: Seq<char>, y: Seq<char>, pat: Seq<char>, rep: Seq<char>)
    requires
        pat.len() > 0,
        !x.contains(pat[0]),
    ensures
        replaced(x + y, pat, rep) == x + replaced(y, pat, rep),
    decreases x.len(),
{
    if x.len() > 0 {
        let s = x + y;
        assert(s[0] == x[0]);
        assert(x.contains(x[0]));
        if pat.is_prefix_of(s) {
            assert(pat[0] == s.subrange(0, pat.len() as int)[0]);
        }
        assert(s.skip(1) =~= x.skip(1) + y);
        assert forall|c: char| x.skip(1).contains(c) implies x.contains(c) by {
            let k = choose|k: int| 0 <= k < x.skip(1).len() && x.skip(1)[k] == c;
            assert(x[k + 1] == c);
        }
        lemma_replaced_prefix_free(x.skip(1), y, pat, rep);
        assert(seq![x[0]] + (x.skip(1) + replaced(y, pat, rep)) =~= x + replaced(y, pat, rep));
    } else {
        assert(x + y =~= y);
        assert(x + replaced(y, pat, rep) =~= replaced(y, pat, rep));
    }
}

/// A text in which nothing can start `pat` is left as it is.
pub proof fn lemma_replaced_identity(x: Seq<char>, pat: Seq<char>, rep: Seq<char>)
    requires
        pat.len() > 0,
        !x.contains(pat[0]),
    ensures
        replaced(x, pat, rep) == x,
{
    lemma_replaced_prefix_free(x, Seq::empty(), pat, rep);
    assert(x + Seq::<char>::empty() =~= x);
    assert(replaced(Seq::<char>::empty(), pat, rep) =~= Seq::<char>::empty());
}

/// Replacing in `pre + pat + suf`, where neither `pre` nor `suf` holds the
/// first character of `pat`, gives `pre + rep + suf`.
pub proof fn lemma_replaced_single(
    pre: Seq<char>,
    suf: Seq<char>,
    pat: Seq<char>,
    rep: Seq<char>,
)
    requires
        pat.len() > 0,
        !pre.contains(pat[0]),
        !suf.contains(pat[0]),
    ensures
        replaced(pre + pat + suf, pat, rep) == pre + rep + suf,
{
    lemma_replaced_prefix_free(pre, pat + suf, pat, rep);
    assert(pre + pat + suf =~= pre + (pat + suf));
    let s = pat + suf;
    assert(pat.is_prefix_of(s)) by {
        assert(pat =~= s.subrange(0, pat.len() as int));
    }
    assert(s.skip(pat.len() as int) =~= suf);
    lemma_replaced_identity(suf, pat, rep);
    assert(pre + (rep + suf) =~= pre + rep + suf);
}

} // verus!
