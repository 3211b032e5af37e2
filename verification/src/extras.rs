//! Extras in the order in which a requirement line lists them: sorted, each once.

use vstd::prelude::*;
use vstd::string::*;
use crate::order::{compare, lemma_lex_irreflexive, lemma_lex_total, lemma_lex_transitive, lex_lt, Order};

verus! {

/// The texts of a list of strings.
pub open spec fn texts(v: Seq<String>) -> Seq<Seq<char>> {
    Seq::new(v.len(), |i: int| v[i]@)
}

/// Each element comes strictly before the next: sorted, with nothing twice.
pub open spec fn strictly_increasing(s: Seq<Seq<char>>) -> bool {
    forall|i: int, j: int| 0 <= i < j < s.len() ==> lex_lt(#[trigger] s[i], #[trigger] s[j])
}

/// `t` with `x` put at its place, unless `t` holds it already.
pub open spec fn insert_sorted(t: Seq<Seq<char>>, x: Seq<char>) -> Seq<Seq<char>>
    decreases t.len(),
{
    if t.len() == 0 {
        seq![x]
    } else if lex_lt(x, t.first()) {
        seq![x] + t
    } else if x == t.first() {
        t
    } else {
        seq![t.first()] + insert_sorted(t.drop_first(), x)
    }
}

/// The elements of `s`, sorted, each once.
pub open spec fn sorted_unique(s: Seq<Seq<char>>) -> Seq<Seq<char>>
    decreases s.len(),
{
    if s.len() == 0 {
        Seq::empty()
    } else {
        insert_sorted(sorted_unique(s.drop_last()), s.last())
    }
}

/// Where every element before position `i` comes before `x`, and the one at
/// `i` does not, `x` goes to position `i`.
proof fn lemma_insert_at(t: Seq<Seq<char>>, x: Seq<char>, i: int)
    requires
        0 <= i <= t.len(),
        forall|j: int| 0 <= j < i ==> lex_lt(#[trigger] t[j], x),
        i < t.len() ==> !lex_lt(t[i], x),
    ensures
        insert_sorted(t, x) == if i < t.len() && t[i] == x {
            t
        } else {
            t.take(i) + seq![x] + t.skip(i)
        },
    decreases i,
{
    if i == 0 {
        if t.len() == 0 {
            assert(t.take(0) + seq![x] + t.skip(0) =~= seq![x]);
        } else {
            lemma_lex_total(x, t.first());
            assert(t.take(0) + seq![x] + t.skip(0) =~= seq![x] + t);
        }
    } else {
        assert(lex_lt(t[0], x));
        lemma_lex_total(x, t.first());
        lemma_lex_irreflexive(x);
        let rest = t.drop_first();
        assert forall|j: int| 0 <= j < i - 1 implies lex_lt(#[trigger] rest[j], x) by {
            assert(rest[j] == t[j + 1]);
        }
        lemma_insert_at(rest, x, i - 1);
        if i < t.len() && t[i] == x {
            assert(rest[i - 1] == x);
            assert(seq![t.first()] + rest =~= t);
        } else {
            assert(seq![t.first()] + (rest.take(i - 1) + seq![x] + rest.skip(i - 1)) =~= t.take(i)
                + seq![x] + t.skip(i));
        }
    }
}

/// Inserting keeps the order, and adds `x` to the elements and nothing else.
pub proof fn lemma_insert_sorted(t: Seq<Seq<char>>, x: Seq<char>)
    requires
        strictly_increasing(t),
    ensures
        strictly_increasing(insert_sorted(t, x)),
        forall|y: Seq<char>| #[trigger] insert_sorted(t, x).contains(y) <==> (t.contains(y) || y == x),
    decreases t.len(),
{
    let r = insert_sorted(t, x);
    if t.len() == 0 {
        assert(r[0] == x);
    } else if lex_lt(x, t.first()) {
        assert forall|i: int, j: int| 0 <= i < j < r.len() implies lex_lt(
            #[trigger] r[i],
            #[trigger] r[j],
        ) by {
            if i == 0 {
                if j > 1 {
                    assert(lex_lt(t[0], t[j - 1]));
                    lemma_lex_transitive(x, t[0], t[j - 1]);
                }
            } else {
                assert(lex_lt(t[i - 1], t[j - 1]));
            }
        }
        assert forall|y: Seq<char>| #[trigger] r.contains(y) <==> (t.contains(y) || y == x) by {
            if r.contains(y) {
                let k = choose|k: int| 0 <= k < r.len() && r[k] == y;
                if k > 0 {
                    assert(t[k - 1] == y);
                }
            }
            if t.contains(y) {
                let k = choose|k: int| 0 <= k < t.len() && t[k] == y;
                assert(r[k + 1] == y);
            }
            if y == x {
                assert(r[0] == y);
            }
        }
    } else if x == t.first() {
        assert(t.contains(x));
    } else {
        let rest = t.drop_first();
        assert forall|i: int, j: int| 0 <= i < j < rest.len() implies lex_lt(
            #[trigger] rest[i],
            #[trigger] rest[j],
        ) by {
            assert(lex_lt(t[i + 1], t[j + 1]));
        }
        lemma_insert_sorted(rest, x);
        let inner = insert_sorted(rest, x);
        lemma_lex_total(x, t.first());
        assert forall|k: int| 0 <= k < inner.len() implies lex_lt(t.first(), #[trigger] inner[k]) by {
            assert(inner.contains(inner[k]));
            if rest.contains(inner[k]) {
                let m = choose|m: int| 0 <= m < rest.len() && rest[m] == inner[k];
                assert(lex_lt(t[0], t[m + 1]));
            }
        }
        assert forall|i: int, j: int| 0 <= i < j < r.len() implies lex_lt(
            #[trigger] r[i],
            #[trigger] r[j],
        ) by {
            if i == 0 {
                assert(r[j] == inner[j - 1]);
            } else {
                assert(lex_lt(inner[i - 1], inner[j - 1]));
            }
        }
        assert forall|y: Seq<char>| #[trigger] r.contains(y) <==> (t.contains(y) || y == x) by {
            if r.contains(y) {
                let k = choose|k: int| 0 <= k < r.len() && r[k] == y;
                if k > 0 {
                    assert(inner.contains(inner[k - 1]));
                    if rest.contains(y) {
                        let m = choose|m: int| 0 <= m < rest.len() && rest[m] == y;
                        assert(t[m + 1] == y);
                    }
                } else {
                    assert(t[0] == y);
                }
            }
            if t.contains(y) {
                let k = choose|k: int| 0 <= k < t.len() && t[k] == y;
                if k == 0 {
                    assert(r[0] == y);
                } else {
                    assert(rest[k - 1] == y);
                    assert(inner.contains(y));
                    let m = choose|m: int| 0 <= m < inner.len() && inner[m] == y;
                    assert(r[m + 1] == y);
                }
            }
            if y == x {
                assert(inner.contains(y));
                let m = choose|m: int| 0 <= m < inner.len() && inner[m] == y;
                assert(r[m + 1] == y);
            }
        }
    }
}

/// What [`sorted_unique`] gives is sorted with nothing twice, and holds the
/// elements of `s` and no others.
pub proof fn lemma_sorted_unique(s: Seq<Seq<char>>)
    ensures
        strictly_increasing(sorted_unique(s)),
        forall|y: Seq<char>| #[trigger] sorted_unique(s).contains(y) <==> s.contains(y),
    decreases s.len(),
{
    if s.len() > 0 {
        let front = s.drop_last();
        lemma_sorted_unique(front);
        lemma_insert_sorted(sorted_unique(front), s.last());
        assert forall|y: Seq<char>| #[trigger] sorted_unique(s).contains(y) <==> s.contains(y) by {
            if s.contains(y) {
                let k = choose|k: int| 0 <= k < s.len() && s[k] == y;
                if k < s.len() - 1 {
                    assert(front[k] == y);
                }
            }
            if front.contains(y) {
                let k = choose|k: int| 0 <= k < front.len() && front[k] == y;
                assert(s[k] == y);
            }
            if y == s.last() {
                assert(s[s.len() - 1] == y);
            }
        }
    }
}

/// Two sorted sequences without repetition that hold the same elements are
/// the same sequence.
pub proof fn lemma_strictly_increasing_unique(a: Seq<Seq<char>>, b: Seq<Seq<char>>)
    requires
        strictly_increasing(a),
        strictly_increasing(b),
        forall|y: Seq<char>| a.contains(y) <==> b.contains(y),
    ensures
        a == b,
    decreases a.len(),
{
    if a.len() == 0 {
        if b.len() > 0 {
            assert(b.contains(b[0]));
        }
        assert(a =~= b);
    } else {
        assert(a.contains(a[0]));
        assert(b.contains(a[0]));
        assert(b.contains(b[0]));
        assert(a.contains(b[0]));
        let ia = choose|k: int| 0 <= k < a.len() && a[k] == b[0];
        let ib = choose|k: int| 0 <= k < b.len() && b[k] == a[0];
        lemma_lex_total(a[0], b[0]);
        lemma_lex_irreflexive(a[0]);
        if ia > 0 {
            assert(lex_lt(a[0], a[ia]));
        }
        if ib > 0 {
            assert(lex_lt(b[0], b[ib]));
        }
        assert(a[0] == b[0]);
        let ra = a.drop_first();
        let rb = b.drop_first();
        assert forall|i: int, j: int| 0 <= i < j < ra.len() implies lex_lt(
            #[trigger] ra[i],
            #[trigger] ra[j],
        ) by {
            assert(lex_lt(a[i + 1], a[j + 1]));
        }
        assert forall|i: int, j: int| 0 <= i < j < rb.len() implies lex_lt(
            #[trigger] rb[i],
            #[trigger] rb[j],
        ) by {
            assert(lex_lt(b[i + 1], b[j + 1]));
        }
        assert forall|y: Seq<char>| ra.contains(y) <==> rb.contains(y) by {
            lemma_lex_irreflexive(y);
            if ra.contains(y) {
                let k = choose|k: int| 0 <= k < ra.len() && ra[k] == y;
                assert(a[k + 1] == y);
                assert(lex_lt(a[0], a[k + 1]));
                assert(a.contains(y));
                let m = choose|m: int| 0 <= m < b.len() && b[m] == y;
                assert(m > 0);
                assert(rb[m - 1] == y);
            }
            if rb.contains(y) {
                let k = choose|k: int| 0 <= k < rb.len() && rb[k] == y;
                assert(b[k + 1] == y);
                assert(lex_lt(b[0], b[k + 1]));
                assert(b.contains(y));
                let m = choose|m: int| 0 <= m < a.len() && a[m] == y;
                assert(m > 0);
                assert(ra[m - 1] == y);
            }
        }
        lemma_strictly_increasing_unique(ra, rb);
        assert(a =~= seq![a[0]] + ra);
        assert(b =~= seq![b[0]] + rb);
    }
}

/// Puts `x` at its place in the sorted list `out`, unless it is there already.
fn insert_unique(out: &mut Vec<String>, x: String)
    ensures
        texts(final(out)@) == insert_sorted(texts(old(out)@), x@),
{
    let ghost before = texts(out@);
    let mut i: usize = 0;
    while i < out.len()
        invariant
            i <= out.len(),
            texts(out@) == before,
            out@ == old(out)@,
            forall|j: int| 0 <= j < i ==> lex_lt(#[trigger] before[j], x@),
        ensures
            i < out.len() ==> lex_lt(x@, before[i as int]),
        decreases out.len() - i,
    {
        let o = compare(x.as_str(), out[i].as_str());
        proof {
            assert(before[i as int] == out@[i as int]@);
            lemma_lex_total(x@, before[i as int]);
        }
        match o {
            Order::Same => {
                proof {
                    lemma_lex_irreflexive(x@);
                    lemma_insert_at(before, x@, i as int);
                }
                return ;
            },
            Order::Before => {
                break ;
            },
            Order::After => {
                i = i + 1;
            },
        }
    }
    proof {
        lemma_lex_irreflexive(x@);
        if i < out.len() {
            lemma_lex_total(x@, before[i as int]);
        }
        lemma_insert_at(before, x@, i as int);
    }
    out.insert(i, x);
    assert(texts(out@) =~= before.take(i as int) + seq![x@] + before.skip(i as int));
}

/// The strings of `items`, sorted, each once.
pub fn sort_dedup(items: &Vec<String>) -> (out: Vec<String>)
    ensures
        texts(out@) == sorted_unique(texts(items@)),
{
    let mut out: Vec<String> = Vec::new();
    let mut k: usize = 0;
    assert(texts(items@).take(0) =~= Seq::empty());
    assert(texts(out@) =~= Seq::empty());
    while k < items.len()
        invariant
            k <= items.len(),
            texts(out@) == sorted_unique(texts(items@).take(k as int)),
        decreases items.len() - k,
    {
        let x = items[k].clone();
        proof {
            let upto = texts(items@).take(k + 1);
            assert(upto.drop_last() =~= texts(items@).take(k as int));
            assert(upto.last() == x@);
        }
        insert_unique(&mut out, x);
        k = k + 1;
    }
    assert(texts(items@).take(k as int) =~= texts(items@));
    out
}

} // verus!
