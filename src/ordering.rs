use vstd::prelude::*;

use core::cmp::Ordering;

use crate::project::Project;

verus! {

/// Whether `a` sorts strictly after `b`.
pub open spec fn after(a: Project, b: Project) -> bool {
    a.order_to(&b) == Ordering::Greater
}

/// Inserts `p` into `s` behind every project that does not sort after it.
pub open spec fn insert_by_dates(s: Seq<Project>, p: Project) -> Seq<Project>
    decreases s.len(),
{
    if s.len() == 0 {
        seq![p]
    } else if after(s.last(), p) {
        insert_by_dates(s.drop_last(), p).push(s.last())
    } else {
        s.push(p)
    }
}

/// The projects in ascending order of their dates; projects that compare
/// equal keep the order they had.
pub open spec fn sorted_by_dates(s: Seq<Project>) -> Seq<Project>
    decreases s.len(),
{
    if s.len() == 0 {
        s
    } else {
        insert_by_dates(sorted_by_dates(s.drop_last()), s.last())
    }
}

/// The index at which `insert_by_dates` places `p`.
pub open spec fn insert_position(s: Seq<Project>, p: Project) -> int
    decreases s.len(),
{
    if s.len() == 0 {
        0
    } else if after(s.last(), p) {
        insert_position(s.drop_last(), p)
    } else {
        s.len() as int
    }
}

/// Whether `j` is the place for `p` in `s`: what stands from `j` on sorts
/// after `p`, what stands just before it does not.
pub open spec fn is_insert_position(s: Seq<Project>, p: Project, j: int) -> bool {
    &&& 0 <= j <= s.len()
    &&& forall|k: int| j <= k < s.len() ==> after(#[trigger] s[k], p)
    &&& j > 0 ==> !after(s[j - 1], p)
}

proof fn lemma_insert_at(s: Seq<Project>, p: Project, j: int)
    requires
        is_insert_position(s, p, j),
    ensures
        insert_by_dates(s, p) == s.subrange(0, j).push(p) + s.subrange(j, s.len() as int),
    decreases s.len(),
{
    if j == s.len() {
        assert(s.subrange(0, j) == s);
        assert(s.subrange(j, s.len() as int) =~= Seq::<Project>::empty());
        assert(s.subrange(0, j).push(p) + s.subrange(j, s.len() as int) =~= s.push(p));
    } else {
        let d = s.drop_last();
        assert(after(s[s.len() - 1], p));
        assert forall|k: int| j <= k < d.len() implies after(#[trigger] d[k], p) by {
            assert(d[k] == s[k]);
        }
        if j > 0 {
            assert(d[j - 1] == s[j - 1]);
        }
        lemma_insert_at(d, p, j);
        assert(d.subrange(0, j) =~= s.subrange(0, j));
        assert(d.subrange(j, d.len() as int).push(s.last()) =~= s.subrange(j, s.len() as int));
        assert(insert_by_dates(s, p) =~= s.subrange(0, j).push(p) + s.subrange(j, s.len() as int));
    }
}

proof fn lemma_insert_position(s: Seq<Project>, p: Project)
    ensures
        is_insert_position(s, p, insert_position(s, p)),
    decreases s.len(),
{
    if s.len() > 0 && after(s.last(), p) {
        let d = s.drop_last();
        lemma_insert_position(d, p);
        let j = insert_position(d, p);
        assert forall|k: int| j <= k < s.len() implies after(#[trigger] s[k], p) by {
            if k < d.len() {
                assert(d[k] == s[k]);
            }
        }
        if j > 0 {
            assert(d[j - 1] == s[j - 1]);
        }
    }
}

proof fn lemma_not_after_transitive(a: Project, b: Project, c: Project)
    requires
        !after(a, b),
        !after(b, c),
    ensures
        !after(a, c),
{
}

/// The sorted projects stand in ascending order: none sorts after one that
/// follows it.
pub proof fn lemma_sorted_ascending(s: Seq<Project>)
    ensures
        forall|k: int, l: int|
            0 <= k < l < sorted_by_dates(s).len() ==> !after(#[trigger] sorted_by_dates(s)[k], #[trigger] sorted_by_dates(s)[l]),
    decreases s.len(),
{
    if s.len() > 0 {
        let d = s.drop_last();
        let p = s.last();
        lemma_sorted_ascending(d);
        let t = sorted_by_dates(d);
        lemma_insert_position(t, p);
        let j = insert_position(t, p);
        lemma_insert_at(t, p, j);
        let u = sorted_by_dates(s);
        assert(u == t.subrange(0, j).push(p) + t.subrange(j, t.len() as int));
        assert forall|k: int, l: int| 0 <= k < l < u.len() implies !after(#[trigger] u[k], #[trigger] u[l]) by {
            if l < j {
                assert(u[k] == t[k] && u[l] == t[l]);
            } else if l == j {
                assert(u[k] == t[k]);
                assert(!after(t[j - 1], p));
                if k < j - 1 {
                    assert(!after(t[k], t[j - 1]));
                    lemma_not_after_transitive(t[k], t[j - 1], p);
                }
            } else if k == j {
                assert(u[l] == t[l - 1]);
                assert(after(t[l - 1], p));
            } else if k < j {
                assert(u[k] == t[k] && u[l] == t[l - 1]);
            } else {
                assert(u[k] == t[k - 1] && u[l] == t[l - 1]);
            }
        }
    }
}

/// Whether `out` is `src` rearranged by `perm` (place in `out` to place in
/// `src`), with projects that compare equal in their order in `src`.
pub open spec fn stable_permutation(src: Seq<Project>, out: Seq<Project>, perm: Seq<int>) -> bool {
    &&& perm.len() == src.len()
    &&& out.len() == src.len()
    &&& forall|k: int| 0 <= k < src.len() ==> 0 <= #[trigger] perm[k] < src.len() && out[k] == src[perm[k]]
    &&& forall|k: int, l: int| 0 <= k < l < src.len() ==> #[trigger] perm[k] != #[trigger] perm[l]
    &&& forall|k: int, l: int|
        #![trigger out[k], out[l]]
        0 <= k < l < src.len() && out[k].order_to(&out[l]) == Ordering::Equal ==> perm[k] < perm[l]
}

#[verifier::rlimit(40)]
proof fn lemma_insert_stable(d: Seq<Project>, t: Seq<Project>, pd: Seq<int>, p: Project, j: int)
    requires
        stable_permutation(d, t, pd),
        is_insert_position(t, p, j),
    ensures
        stable_permutation(d.push(p), t.subrange(0, j).push(p) + t.subrange(j, t.len() as int),
            pd.subrange(0, j).push(d.len() as int) + pd.subrange(j, d.len() as int)),
{
    let s = d.push(p);
    let n = d.len() as int;
    let u = t.subrange(0, j).push(p) + t.subrange(j, t.len() as int);
    let perm = pd.subrange(0, j).push(n) + pd.subrange(j, n);
    assert forall|k: int| 0 <= k < s.len() implies 0 <= #[trigger] perm[k] < s.len() && u[k] == s[perm[k]] by {
        if k < j {
            assert(perm[k] == pd[k] && u[k] == t[k]);
        } else if k > j {
            assert(perm[k] == pd[k - 1] && u[k] == t[k - 1]);
        }
    }
    assert forall|k: int, l: int| 0 <= k < l < s.len() implies #[trigger] perm[k] != #[trigger] perm[l] by {
        if k < j && l < j {
            assert(perm[k] == pd[k] && perm[l] == pd[l]);
        } else if k < j && l > j {
            assert(perm[k] == pd[k] && perm[l] == pd[l - 1]);
        } else if k > j {
            assert(perm[k] == pd[k - 1] && perm[l] == pd[l - 1]);
        } else if k == j {
            assert(perm[l] == pd[l - 1]);
        } else {
            assert(perm[k] == pd[k]);
        }
    }
    assert forall|k: int, l: int|
        #![trigger u[k], u[l]]
        0 <= k < l < s.len() && u[k].order_to(&u[l]) == Ordering::Equal implies perm[k] < perm[l] by {
        if k < j && l < j {
            assert(perm[k] == pd[k] && perm[l] == pd[l] && u[k] == t[k] && u[l] == t[l]);
        } else if k < j && l > j {
            assert(perm[k] == pd[k] && perm[l] == pd[l - 1] && u[k] == t[k] && u[l] == t[l - 1]);
        } else if k > j {
            assert(perm[k] == pd[k - 1] && perm[l] == pd[l - 1] && u[k] == t[k - 1] && u[l] == t[l - 1]);
        } else if k == j {
            assert(u[l] == t[l - 1]);
            assert(after(t[l - 1], p));
        } else {
            assert(perm[k] == pd[k]);
        }
    }
}

/// Sorting is stable: the result is the input rearranged by `perm`, and
/// projects that compare equal keep their authored order.
pub proof fn lemma_sorted_stable(s: Seq<Project>) -> (perm: Seq<int>)
    ensures
        stable_permutation(s, sorted_by_dates(s), perm),
    decreases s.len(),
{
    if s.len() == 0 {
        Seq::empty()
    } else {
        let d = s.drop_last();
        let p = s.last();
        let pd = lemma_sorted_stable(d);
        let t = sorted_by_dates(d);
        lemma_insert_position(t, p);
        let j = insert_position(t, p);
        lemma_insert_at(t, p, j);
        lemma_insert_stable(d, t, pd, p, j);
        assert(d.push(p) =~= s);
        pd.subrange(0, j).push(d.len() as int) + pd.subrange(j, d.len() as int)
    }
}

/// Two ongoing projects that started on the same day keep, once sorted,
/// the order in which they were authored.
pub proof fn lemma_ongoing_same_start_keep_order(s: Seq<Project>, i: int, j: int) -> (places: (int, int))
    requires
        0 <= i < j < s.len(),
        s[i].end_date.is_none(),
        s[j].end_date.is_none(),
        s[i].start_date.key() == s[j].start_date.key(),
    ensures
        0 <= places.0 < places.1 < s.len(),
        sorted_by_dates(s)[places.0] == s[i],
        sorted_by_dates(s)[places.1] == s[j],
{
    let perm = lemma_sorted_stable(s);
    let out = sorted_by_dates(s);
    lemma_permutation_onto(perm, s.len() as int, i);
    lemma_permutation_onto(perm, s.len() as int, j);
    let k = choose|k: int| 0 <= k < s.len() && perm[k] == i;
    let l = choose|l: int| 0 <= l < s.len() && perm[l] == j;
    assert(out[k].order_to(&out[l]) == Ordering::Equal);
    assert(out[l].order_to(&out[k]) == Ordering::Equal);
    if l < k {
        assert(perm[l] < perm[k]);
    }
    (k, l)
}

/// A sequence of `n` distinct places below `n` reaches every place.
proof fn lemma_permutation_onto(perm: Seq<int>, n: int, target: int)
    requires
        perm.len() == n,
        0 <= target < n,
        forall|k: int| 0 <= k < n ==> 0 <= #[trigger] perm[k] < n,
        forall|k: int, l: int| 0 <= k < l < n ==> #[trigger] perm[k] != #[trigger] perm[l],
    ensures
        exists|k: int| 0 <= k < n && perm[k] == target,
{
    if forall|k: int| 0 <= k < n ==> perm[k] != target {
        let set_of = perm.to_set();
        let others = vstd::set_lib::set_int_range(0, n).remove(target);
        assert(set_of.subset_of(others));
        perm.unique_seq_to_set();
        vstd::set_lib::lemma_int_range(0, n);
        vstd::set_lib::lemma_len_subset(set_of, others);
    }
}

/// Sorts the projects in ascending order of their dates, keeping the
/// authored order among projects that compare equal.
pub fn sort_by_dates(projects: Vec<Project>) -> (r: Vec<Project>)
    ensures
        r@ == sorted_by_dates(projects@),
{
    let ghost orig = projects@;
    let mut rest = projects;
    let mut out: Vec<Project> = Vec::new();
    let mut i: usize = 0;
    let total: usize = rest.len();
    assert(orig.subrange(0, 0) =~= Seq::<Project>::empty());
    assert(orig.subrange(0, orig.len() as int) =~= orig);
    while rest.len() > 0
        invariant
            i <= orig.len(),
            orig.len() == total,
            rest@ == orig.subrange(i as int, orig.len() as int),
            out@ == sorted_by_dates(orig.subrange(0, i as int)),
        decreases rest.len(),
    {
        assert(rest@.len() == orig.len() - i);
        let p = rest.remove(0);
        let ghost t = out@;
        let mut j: usize = out.len();
        loop
            invariant
                out@ == t,
                j <= t.len(),
                forall|k: int| j <= k < t.len() ==> after(#[trigger] t[k], p),
            ensures
                is_insert_position(t, p, j as int),
            decreases j,
        {
            if j == 0 {
                break;
            }
            match out[j - 1].cmp_dates(&p) {
                Ordering::Greater => {
                    j = j - 1;
                },
                _ => {
                    break;
                },
            }
        }
        proof {
            lemma_insert_at(t, p, j as int);
            let w = orig.subrange(0, i + 1);
            assert(w.drop_last() =~= orig.subrange(0, i as int));
            assert(w.last() == p);
        }
        out.insert(j, p);
        assert(out@ =~= t.subrange(0, j as int).push(p) + t.subrange(j as int, t.len() as int));
        i = i + 1;
        assert(rest@ =~= orig.subrange(i as int, orig.len() as int));
    }
    assert(orig.subrange(0, i as int) =~= orig);
    out
}

/// The order in which projects are shown: the sorted order reversed, so
/// that ongoing and recent projects come first.
pub fn display_order(sorted: Vec<Project>) -> (r: Vec<Project>)
    ensures
        r@ == sorted@.reverse(),
{
    let ghost s = sorted@;
    let mut rest = sorted;
    let mut out: Vec<Project> = Vec::new();
    while rest.len() > 0
        invariant
            rest@ == s.subrange(0, rest@.len() as int),
            out@.len() + rest@.len() == s.len(),
            forall|k: int| 0 <= k < out@.len() ==> #[trigger] out@[k] == s[s.len() - 1 - k],
        decreases rest.len(),
    {
        let ghost n = rest@.len();
        match rest.pop() {
            Some(p) => {
                out.push(p);
            },
            None => {},
        }
        assert(rest@ =~= s.subrange(0, rest@.len() as int));
    }
    assert(out@ =~= s.reverse());
    out
}

} // verus!
