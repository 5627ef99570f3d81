//! Lexicographic order on strings (the order of `String`'s `Ord`, since
//! UTF-8 preserves code-point order) and sorting of name lists.
use vstd::prelude::*;

use crate::text::chars_of;

verus! {

/// `a < b` in lexicographic code-point order.
pub open spec fn lex_lt(a: Seq<char>, b: Seq<char>) -> bool
    decreases a.len(),
{
    if a.len() == 0 {
        b.len() > 0
    } else if b.len() == 0 {
        false
    } else if a[0] < b[0] {
        true
    } else if a[0] > b[0] {
        false
    } else {
        lex_lt(a.drop_first(), b.drop_first())
    }
}

/// The views of a list of strings.
pub open spec fn views(v: Seq<String>) -> Seq<Seq<char>> {
    v.map_values(|s: String| s@)
}

/// Strictly increasing, hence also free of duplicates.
pub open spec fn strictly_sorted(s: Seq<Seq<char>>) -> bool {
    forall|i: int, j: int| 0 <= i < j < s.len() ==> lex_lt(#[trigger] s[i], #[trigger] s[j])
}

/// No string occurs twice.
pub open spec fn distinct(s: Seq<Seq<char>>) -> bool {
    forall|i: int, j: int| 0 <= i < j < s.len() ==> #[trigger] s[i] != #[trigger] s[j]
}

pub proof fn lemma_lex_irreflexive(a: Seq<char>)
    ensures
        !lex_lt(a, a),
    decreases a.len(),
{
    if a.len() > 0 {
        lemma_lex_irreflexive(a.drop_first());
    }
}

pub proof fn lemma_lex_asymmetric(a: Seq<char>, b: Seq<char>)
    ensures
        lex_lt(a, b) ==> !lex_lt(b, a),
    decreases a.len(),
{
    if a.len() > 0 && b.len() > 0 && a[0] == b[0] {
        lemma_lex_asymmetric(a.drop_first(), b.drop_first());
    }
}

pub proof fn lemma_lex_transitive(a: Seq<char>, b: Seq<char>, c: Seq<char>)
    requires
        lex_lt(a, b),
        lex_lt(b, c),
    ensures
        lex_lt(a, c),
    decreases a.len(),
{
    if a.len() > 0 && b.len() > 0 && c.len() > 0 {
        if a[0] == b[0] && b[0] == c[0] {
            lemma_lex_transitive(a.drop_first(), b.drop_first(), c.drop_first());
        }
    }
}

pub proof fn lemma_lex_total(a: Seq<char>, b: Seq<char>)
    requires
        a != b,
    ensures
        lex_lt(a, b) || lex_lt(b, a),
    decreases a.len(),
{
    if a.len() > 0 && b.len() > 0 {
        if a[0] == b[0] {
            assert(a[0] == b[0]);
            if a.drop_first() == b.drop_first() {
                assert(a =~= seq![a[0]] + a.drop_first());
                assert(b =~= seq![b[0]] + b.drop_first());
            }
            lemma_lex_total(a.drop_first(), b.drop_first());
        }
    } else if a.len() == 0 && b.len() == 0 {
        assert(a =~= b);
    }
}

/// `a < b` in lexicographic order.
pub fn str_lt(a: &str, b: &str) -> (r: bool)
    ensures
        r == lex_lt(a@, b@),
{
    let x = chars_of(a);
    let y = chars_of(b);
    let mut i: usize = 0;
    assert(x@.skip(0) =~= x@);
    assert(y@.skip(0) =~= y@);
    while i < x.len() && i < y.len() && x[i] == y[i]
        invariant
            i <= x.len(),
            i <= y.len(),
            x@ == a@,
            y@ == b@,
            lex_lt(a@, b@) == lex_lt(x@.skip(i as int), y@.skip(i as int)),
        decreases x.len() - i,
    {
        proof {
            assert(x@.skip(i as int).drop_first() =~= x@.skip(i + 1));
            assert(y@.skip(i as int).drop_first() =~= y@.skip(i + 1));
            assert(x@.skip(i as int)[0] == x@[i as int]);
            assert(y@.skip(i as int)[0] == y@[i as int]);
        }
        i = i + 1;
    }
    proof {
        if i < x.len() {
            assert(x@.skip(i as int)[0] == x@[i as int]);
        }
        if i < y.len() {
            assert(y@.skip(i as int)[0] == y@[i as int]);
        }
    }
    if i == x.len() {
        i < y.len()
    } else if i == y.len() {
        false
    } else {
        x[i] < y[i]
    }
}

/// Sorts a list of distinct strings into increasing order.
pub fn sort_strings(v: Vec<String>) -> (r: Vec<String>)
    requires
        distinct(views(v@)),
    ensures
        strictly_sorted(views(r@)),
        r@.len() == v@.len(),
        forall|x: Seq<char>| views(r@).contains(x) <==> views(v@).contains(x),
{
    let mut r: Vec<String> = Vec::new();
    let mut i: usize = 0;
    while i < v.len()
        invariant
            i <= v.len(),
            distinct(views(v@)),
            strictly_sorted(views(r@)),
            r@.len() == i,
            forall|x: Seq<char>| views(r@).contains(x) <==> views(v@.take(i as int)).contains(x),
        decreases v.len() - i,
    {
        let x = v[i].clone();
        let mut p: usize = 0;
        while p < r.len() && str_lt(r[p].as_str(), x.as_str())
            invariant
                p <= r.len(),
                forall|k: int| 0 <= k < p ==> lex_lt(#[trigger] r@[k]@, x@),
            decreases r.len() - p,
        {
            p = p + 1;
        }
        let ghost old_r = r@;
        proof {
            // x is not yet in r: the prefix of v holds distinct strings.
            assert(!views(v@.take(i as int)).contains(x@)) by {
                if views(v@.take(i as int)).contains(x@) {
                    let k = choose|k: int| 0 <= k < views(v@.take(i as int)).len() && views(v@.take(i as int))[k] == x@;
                    assert(views(v@)[k] == views(v@)[i as int]);
                }
            }
            assert forall|k: int| p <= k < old_r.len() implies lex_lt(x@, #[trigger] old_r[k]@) by {
                assert(views(old_r)[p as int] == old_r[p as int]@);
                assert(old_r[p as int]@ != x@) by {
                    assert(views(old_r).contains(old_r[p as int]@));
                }
                lemma_lex_total(old_r[p as int]@, x@);
                if k > p {
                    assert(lex_lt(views(old_r)[p as int], views(old_r)[k]));
                    lemma_lex_transitive(x@, old_r[p as int]@, old_r[k]@);
                }
            }
        }
        r.insert(p, x);
        proof {
            let nr = r@;
            let vt = views(v@.take(i as int));
            let vt1 = views(v@.take(i + 1));
            assert(nr == old_r.insert(p as int, v@[i as int]));
            assert forall|a: int, b: int| 0 <= a < b < nr.len() implies lex_lt(#[trigger] views(nr)[a], #[trigger] views(nr)[b]) by {
                if b < p {
                    assert(lex_lt(views(old_r)[a], views(old_r)[b]));
                } else if b == p {
                } else if a < p {
                    assert(lex_lt(old_r[a]@, x@));
                    assert(lex_lt(x@, old_r[b - 1]@));
                    lemma_lex_transitive(old_r[a]@, x@, old_r[b - 1]@);
                } else if a == p {
                } else {
                    assert(lex_lt(views(old_r)[a - 1], views(old_r)[b - 1]));
                }
            }
            assert(vt1 =~= vt.push(x@));
            let vo = views(old_r);
            let vn = views(nr);
            assert(vn =~= vo.insert(p as int, x@));
            assert forall|y: Seq<char>| vn.contains(y) <==> vt1.contains(y) by {
                if vn.contains(y) {
                    let k = choose|k: int| 0 <= k < vn.len() && vn[k] == y;
                    if k != p {
                        if k < p {
                            assert(vo[k] == y);
                        } else {
                            assert(vo[k - 1] == y);
                        }
                        assert(vo.contains(y));
                        assert(vt.contains(y));
                        let k2 = choose|k2: int| 0 <= k2 < vt.len() && vt[k2] == y;
                        assert(vt1[k2] == y);
                    } else {
                        assert(vt1[vt.len() as int] == y);
                    }
                }
                if vt1.contains(y) {
                    let k = choose|k: int| 0 <= k < vt1.len() && vt1[k] == y;
                    if k == vt.len() {
                        assert(vn[p as int] == y);
                    } else {
                        assert(vt[k] == y);
                        assert(vt.contains(y));
                        assert(vo.contains(y));
                        let k2 = choose|k2: int| 0 <= k2 < vo.len() && vo[k2] == y;
                        if k2 < p {
                            assert(vn[k2] == y);
                        } else {
                            assert(vn[k2 + 1] == y);
                        }
                    }
                }
            }
        }
        i = i + 1;
    }
    proof {
        assert(v@.take(v.len() as int) =~= v@);
    }
    r
}

} // verus!

verus! {

/// Two strictly sorted lists with the same members are the same list.
pub proof fn lemma_sorted_same_members_equal(s1: Seq<Seq<char>>, s2: Seq<Seq<char>>)
    requires
        strictly_sorted(s1),
        strictly_sorted(s2),
        forall|x: Seq<char>| s1.contains(x) <==> s2.contains(x),
    ensures
        s1 == s2,
    decreases s1.len() + s2.len(),
{
    if s1.len() == 0 {
        if s2.len() > 0 {
            assert(s2.contains(s2[0]));
        }
        assert(s1 =~= s2);
    } else if s2.len() == 0 {
        assert(s1.contains(s1[0]));
    } else {
        assert(s1.contains(s1[0]));
        let k = choose|k: int| 0 <= k < s2.len() && s2[k] == s1[0];
        assert(s2.contains(s2[0]));
        let j = choose|j: int| 0 <= j < s1.len() && s1[j] == s2[0];
        if k > 0 {
            assert(lex_lt(s2[0], s2[k]));
            if j == 0 {
                lemma_lex_irreflexive(s2[0]);
            } else {
                assert(lex_lt(s1[0], s1[j]));
                lemma_lex_asymmetric(s2[0], s2[k]);
            }
        }
        assert(s1[0] == s2[0]);
        let t1 = s1.drop_first();
        let t2 = s2.drop_first();
        assert forall|x: Seq<char>| t1.contains(x) implies t2.contains(x) by {
            let a = choose|a: int| 0 <= a < t1.len() && t1[a] == x;
            assert(s1[a + 1] == x);
            assert(lex_lt(s1[0], s1[a + 1]));
            lemma_lex_irreflexive(x);
            assert(s1.contains(x));
            let b = choose|b: int| 0 <= b < s2.len() && s2[b] == x;
            assert(b != 0);
            assert(t2[b - 1] == x);
        }
        assert forall|x: Seq<char>| t2.contains(x) implies t1.contains(x) by {
            let a = choose|a: int| 0 <= a < t2.len() && t2[a] == x;
            assert(s2[a + 1] == x);
            assert(lex_lt(s2[0], s2[a + 1]));
            lemma_lex_irreflexive(x);
            assert(s2.contains(x));
            let b = choose|b: int| 0 <= b < s1.len() && s1[b] == x;
            assert(b != 0);
            assert(t1[b - 1] == x);
        }
        assert forall|a: int, b: int| 0 <= a < b < t1.len() implies lex_lt(#[trigger] t1[a], #[trigger] t1[b]) by {
            assert(t1[a] == s1[a + 1] && t1[b] == s1[b + 1]);
        }
        assert forall|a: int, b: int| 0 <= a < b < t2.len() implies lex_lt(#[trigger] t2[a], #[trigger] t2[b]) by {
            assert(t2[a] == s2[a + 1] && t2[b] == s2[b + 1]);
        }
        lemma_sorted_same_members_equal(t1, t2);
        assert(s1 =~= seq![s1[0]] + t1);
        assert(s2 =~= seq![s2[0]] + t2);
    }
}

/// A strictly sorted list with no members is empty.
pub proof fn lemma_sorted_no_members_empty(s: Seq<Seq<char>>)
    requires
        forall|x: Seq<char>| !s.contains(x),
    ensures
        s.len() == 0,
{
    if s.len() > 0 {
        assert(s.contains(s[0]));
    }
}

} // verus!
