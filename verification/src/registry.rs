//! The mathematical model of the job registry: a map from job id to job,
//! built from a list of jobs whose ids are pairwise distinct.

use vstd::prelude::*;

use crate::job::{Job, JobView};

verus! {

/// The views of a list of jobs.
pub open spec fn jobs_view(s: Seq<Job>) -> Seq<JobView> {
    s.map_values(|j: Job| j@)
}

/// No two jobs of the list share an id.
pub open spec fn unique_ids(s: Seq<JobView>) -> bool {
    forall|i: int, j: int| 0 <= i < s.len() && 0 <= j < s.len() && i != j ==> s[i].id != s[j].id
}

/// The registry that a list of jobs stands for: each id maps to the job
/// that carries it (the last one, should two carry the same id).
pub open spec fn registry(s: Seq<JobView>) -> Map<Seq<char>, JobView>
    decreases s.len(),
{
    if s.len() == 0 {
        Map::empty()
    } else {
        registry(s.drop_last()).insert(s.last().id, s.last())
    }
}

/// The part of a registry whose jobs satisfy `p`.
pub open spec fn restrict_by(m: Map<Seq<char>, JobView>, p: spec_fn(JobView) -> bool) -> Map<
    Seq<char>,
    JobView,
> {
    Map::new(|k: Seq<char>| m.dom().contains(k) && p(m[k]), |k: Seq<char>| m[k])
}

/// Position of the last job with id `k`, or -1.
pub open spec fn id_pos(s: Seq<JobView>, k: Seq<char>) -> int
    decreases s.len(),
{
    if s.len() == 0 {
        -1
    } else if s.last().id == k {
        s.len() - 1
    } else {
        id_pos(s.drop_last(), k)
    }
}

/// Where an id lives in a job list and what the registry holds for it.
pub proof fn lemma_registry_facts(s: Seq<JobView>, k: Seq<char>)
    ensures
        -1 <= id_pos(s, k) < s.len(),
        registry(s).dom().contains(k) <==> id_pos(s, k) >= 0,
        id_pos(s, k) >= 0 ==> s[id_pos(s, k)].id == k && registry(s)[k] == s[id_pos(s, k)],
        forall|i: int| id_pos(s, k) < i < s.len() ==> s[i].id != k,
    decreases s.len(),
{
    if s.len() > 0 {
        let p = s.drop_last();
        lemma_registry_facts(p, k);
        if s.last().id != k {
            assert forall|i: int| id_pos(s, k) < i < s.len() implies s[i].id != k by {
                if i < s.len() - 1 {
                    assert(s[i] == p[i]);
                }
            }
            if id_pos(p, k) >= 0 {
                assert(s[id_pos(p, k)] == p[id_pos(p, k)]);
            }
        }
    }
}

/// With distinct ids, the job at position `i` is the one the registry holds
/// for its id.
pub proof fn lemma_registry_at(s: Seq<JobView>, i: int)
    requires
        unique_ids(s),
        0 <= i < s.len(),
    ensures
        id_pos(s, s[i].id) == i,
        registry(s).dom().contains(s[i].id),
        registry(s)[s[i].id] == s[i],
{
    lemma_registry_facts(s, s[i].id);
}

/// An id that no job of the list carries is not in the registry.
pub proof fn lemma_registry_absent(s: Seq<JobView>, k: Seq<char>)
    requires
        forall|i: int| 0 <= i < s.len() ==> s[i].id != k,
    ensures
        !registry(s).dom().contains(k),
{
    lemma_registry_facts(s, k);
}

/// A list with distinct ids stands for as many jobs as it has entries.
pub proof fn lemma_registry_len(s: Seq<JobView>)
    requires
        unique_ids(s),
    ensures
        registry(s).dom().finite(),
        registry(s).dom().len() == s.len(),
    decreases s.len(),
{
    if s.len() > 0 {
        let p = s.drop_last();
        assert(unique_ids(p)) by {
            assert forall|i: int, j: int|
                0 <= i < p.len() && 0 <= j < p.len() && i != j implies p[i].id != p[j].id by {
                assert(p[i] == s[i] && p[j] == s[j]);
            }
        }
        lemma_registry_len(p);
        assert forall|i: int| 0 <= i < p.len() implies p[i].id != s.last().id by {
            assert(p[i] == s[i]);
        }
        lemma_registry_absent(p, s.last().id);
    }
}

/// Appending a job with a new id adds it to the registry.
pub proof fn lemma_registry_push(s: Seq<JobView>, x: JobView)
    requires
        unique_ids(s),
        !registry(s).dom().contains(x.id),
    ensures
        unique_ids(s.push(x)),
        registry(s.push(x)) == registry(s).insert(x.id, x),
{
    assert(s.push(x).drop_last() == s);
    assert forall|i: int| 0 <= i < s.len() implies s[i].id != x.id by {
        lemma_registry_at(s, i);
    }
    let t = s.push(x);
    assert forall|i: int, j: int|
        0 <= i < t.len() && 0 <= j < t.len() && i != j implies t[i].id != t[j].id by {
        if i < s.len() && j < s.len() {
            assert(t[i] == s[i] && t[j] == s[j]);
        } else if i < s.len() {
            assert(t[i] == s[i]);
        } else {
            assert(t[j] == s[j]);
        }
    }
}

/// Replacing a job by one with the same id updates the registry there.
pub proof fn lemma_registry_update(s: Seq<JobView>, i: int, x: JobView)
    requires
        unique_ids(s),
        0 <= i < s.len(),
        x.id == s[i].id,
    ensures
        unique_ids(s.update(i, x)),
        registry(s.update(i, x)) == registry(s).insert(x.id, x),
{
    let t = s.update(i, x);
    assert forall|a: int, b: int|
        0 <= a < t.len() && 0 <= b < t.len() && a != b implies t[a].id != t[b].id by {
        assert(t[a].id == s[a].id && t[b].id == s[b].id);
    }
    let m = registry(s).insert(x.id, x);
    assert forall|k: Seq<char>| #[trigger] registry(t).dom().contains(k) <==> m.dom().contains(k) by {
        lemma_registry_facts(t, k);
        lemma_registry_facts(s, k);
        if k == x.id {
            lemma_registry_at(t, i);
        } else if id_pos(s, k) >= 0 {
            lemma_registry_at(t, id_pos(s, k));
        } else {
            assert forall|j: int| 0 <= j < t.len() implies t[j].id != k by {
                if j != i {
                    assert(t[j] == s[j]);
                }
            }
            lemma_registry_absent(t, k);
        }
    }
    assert forall|k: Seq<char>| #[trigger] registry(t).dom().contains(k) implies registry(t)[k]
        == m[k] by {
        lemma_registry_facts(s, k);
        if k == x.id {
            lemma_registry_at(t, i);
        } else {
            lemma_registry_at(t, id_pos(s, k));
            lemma_registry_at(s, id_pos(s, k));
        }
    }
    assert(registry(t) =~= m);
}

/// Removing the job at position `i` removes its id from the registry.
pub proof fn lemma_registry_remove(s: Seq<JobView>, i: int)
    requires
        unique_ids(s),
        0 <= i < s.len(),
    ensures
        unique_ids(s.remove(i)),
        registry(s.remove(i)) == registry(s).remove(s[i].id),
{
    let t = s.remove(i);
    assert forall|a: int| 0 <= a < t.len() implies #[trigger] t[a] == s[if a < i {
        a
    } else {
        a + 1
    }] by {}
    assert forall|a: int, b: int|
        0 <= a < t.len() && 0 <= b < t.len() && a != b implies t[a].id != t[b].id by {
        let a2 = if a < i {
            a
        } else {
            a + 1
        };
        let b2 = if b < i {
            b
        } else {
            b + 1
        };
        assert(t[a] == s[a2] && t[b] == s[b2]);
    }
    let m = registry(s).remove(s[i].id);
    assert forall|k: Seq<char>| #[trigger] registry(t).dom().contains(k) <==> m.dom().contains(k) by {
        lemma_registry_facts(s, k);
        if k == s[i].id {
            assert forall|j: int| 0 <= j < t.len() implies t[j].id != k by {
                let j2 = if j < i {
                    j
                } else {
                    j + 1
                };
                assert(t[j] == s[j2]);
            }
            lemma_registry_absent(t, k);
        } else if id_pos(s, k) >= 0 {
            let p = id_pos(s, k);
            let p2 = if p < i {
                p
            } else {
                p - 1
            };
            assert(t[p2] == s[p]);
            lemma_registry_at(t, p2);
        } else {
            assert forall|j: int| 0 <= j < t.len() implies t[j].id != k by {
                let j2 = if j < i {
                    j
                } else {
                    j + 1
                };
                assert(t[j] == s[j2]);
            }
            lemma_registry_absent(t, k);
        }
    }
    assert forall|k: Seq<char>| #[trigger] registry(t).dom().contains(k) implies registry(t)[k]
        == m[k] by {
        lemma_registry_facts(s, k);
        let p = id_pos(s, k);
        let p2 = if p < i {
            p
        } else {
            p - 1
        };
        assert(t[p2] == s[p]);
        lemma_registry_at(t, p2);
    }
    assert(registry(t) =~= m);
}

/// One step of selecting, in order, the jobs of `s` that satisfy `p`.
pub proof fn lemma_registry_select_step(
    s: Seq<JobView>,
    r: Seq<JobView>,
    i: int,
    p: spec_fn(JobView) -> bool,
)
    requires
        unique_ids(s),
        0 <= i < s.len(),
        unique_ids(r),
        registry(r) == restrict_by(registry(s.take(i)), p),
    ensures
        p(s[i]) ==> unique_ids(r.push(s[i])) && registry(r.push(s[i])) == restrict_by(
            registry(s.take(i + 1)),
            p,
        ),
        !p(s[i]) ==> registry(r) == restrict_by(registry(s.take(i + 1)), p),
{
    let pre = s.take(i);
    let x = s[i];
    assert(s.take(i + 1) == pre.push(x));
    assert(unique_ids(pre)) by {
        assert forall|a: int, b: int|
            0 <= a < pre.len() && 0 <= b < pre.len() && a != b implies pre[a].id != pre[b].id by {
            assert(pre[a] == s[a] && pre[b] == s[b]);
        }
    }
    assert forall|j: int| 0 <= j < pre.len() implies pre[j].id != x.id by {
        assert(pre[j] == s[j]);
    }
    lemma_registry_absent(pre, x.id);
    lemma_registry_push(pre, x);
    let m = registry(pre);
    let m2 = m.insert(x.id, x);
    assert(!registry(r).dom().contains(x.id));
    if p(x) {
        lemma_registry_push(r, x);
        assert(restrict_by(m2, p) =~= restrict_by(m, p).insert(x.id, x));
    } else {
        assert(restrict_by(m2, p) =~= restrict_by(m, p));
    }
}

/// Selecting starts from an empty list.
pub proof fn lemma_registry_select_start(s: Seq<JobView>, p: spec_fn(JobView) -> bool)
    ensures
        registry(Seq::<JobView>::empty()) == restrict_by(registry(s.take(0)), p),
        unique_ids(Seq::<JobView>::empty()),
{
    assert(s.take(0) == Seq::<JobView>::empty());
    assert(restrict_by(registry(s.take(0)), p) =~= Map::<Seq<char>, JobView>::empty());
}

/// Appending to the view list of a vector of jobs.
pub proof fn lemma_jobs_view_push(s: Seq<Job>, x: Job)
    ensures
        jobs_view(s.push(x)) == jobs_view(s).push(x@),
{
    assert(jobs_view(s.push(x)) =~= jobs_view(s).push(x@));
}

/// A list with the same jobs as a list with distinct ids, in any order,
/// has distinct ids too and stands for the same registry.
pub proof fn lemma_registry_permutation(a: Seq<JobView>, b: Seq<JobView>)
    requires
        unique_ids(a),
        a.to_multiset() == b.to_multiset(),
    ensures
        unique_ids(b),
        registry(b) == registry(a),
{
    broadcast use vstd::seq_lib::group_to_multiset_ensures, vstd::multiset::group_multiset_axioms;

    assert(a.no_duplicates()) by {
        assert forall|i: int, j: int| 0 <= i < a.len() && 0 <= j < a.len() && i != j implies a[i]
            != a[j] by {
            assert(a[i].id != a[j].id);
        }
    }
    a.lemma_multiset_has_no_duplicates();
    b.lemma_multiset_has_no_duplicates_conv();
    assert forall|i: int| #![trigger b[i]] 0 <= i < b.len() implies (exists|p: int| 0 <= p < a.len() && #[trigger] a[p] == b[i]) by {
        assert(b.contains(b[i]));
        assert(b.to_multiset().count(b[i]) > 0);
        assert(a.contains(b[i]));
    }
    assert forall|i: int, j: int|
        0 <= i < b.len() && 0 <= j < b.len() && i != j implies b[i].id != b[j].id by {
        let p = choose|p: int| 0 <= p < a.len() && #[trigger] a[p] == b[i];
        let q = choose|q: int| 0 <= q < a.len() && #[trigger] a[q] == b[j];
        assert(b[i] != b[j]);
    }
    assert forall|k: Seq<char>| #[trigger] registry(b).dom().contains(k) <==> registry(a).dom().contains(k) by {
        lemma_registry_facts(a, k);
        lemma_registry_facts(b, k);
        if registry(b).dom().contains(k) {
            let i = id_pos(b, k);
            let p = choose|p: int| 0 <= p < a.len() && #[trigger] a[p] == b[i];
            lemma_registry_at(a, p);
        }
        if registry(a).dom().contains(k) {
            let p = id_pos(a, k);
            assert(a.contains(a[p]));
            assert(a.to_multiset().count(a[p]) > 0);
            assert(b.contains(a[p]));
            let i = choose|i: int| 0 <= i < b.len() && #[trigger] b[i] == a[p];
            lemma_registry_at(b, i);
        }
    }
    assert forall|k: Seq<char>| #[trigger] registry(b).dom().contains(k) implies registry(b)[k]
        == registry(a)[k] by {
        lemma_registry_facts(b, k);
        let i = id_pos(b, k);
        let p = choose|p: int| 0 <= p < a.len() && #[trigger] a[p] == b[i];
        lemma_registry_at(a, p);
    }
    assert(registry(b) =~= registry(a));
}

} // verus!
