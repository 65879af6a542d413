//! Ordering of job lists: newest first by creation or update time, by
//! completion percentage (highest first), or by status name.

use vstd::prelude::*;

use crate::job::{Job, JobSort, JobStatus, JobView, Ratio};
use crate::registry::{jobs_view, lemma_jobs_view_push};

verus! {

broadcast use vstd::seq_lib::group_to_multiset_ensures, vstd::multiset::group_multiset_axioms;

/// Lexicographic order of strings by code point (the order of `String`).
pub open spec fn text_lt(a: Seq<char>, b: Seq<char>) -> bool
    decreases a.len(),
{
    if a.len() == 0 {
        b.len() > 0
    } else if b.len() == 0 {
        false
    } else if (a[0] as u32) < (b[0] as u32) {
        true
    } else if a[0] == b[0] {
        text_lt(a.drop_first(), b.drop_first())
    } else {
        false
    }
}

/// No text sorts before itself.
pub proof fn lemma_text_lt_irreflexive(a: Seq<char>)
    ensures
        !text_lt(a, a),
    decreases a.len(),
{
    if a.len() > 0 {
        lemma_text_lt_irreflexive(a.drop_first());
    }
}

/// Text order is transitive.
pub proof fn lemma_text_lt_transitive(a: Seq<char>, b: Seq<char>, c: Seq<char>)
    requires
        text_lt(a, b),
        text_lt(b, c),
    ensures
        text_lt(a, c),
    decreases a.len(),
{
    if a.len() > 0 && b.len() > 0 && c.len() > 0 {
        if a[0] == b[0] && b[0] == c[0] {
            lemma_text_lt_transitive(a.drop_first(), b.drop_first(), c.drop_first());
        }
    }
}

/// Whether `a` is before `b` in the order of `String`.
pub fn text_less(a: &[char], b: &[char]) -> (r: bool)
    ensures
        r == text_lt(a@, b@),
{
    let mut i: usize = 0;
    assert(a@.skip(0) == a@ && b@.skip(0) == b@);
    while i < a.len() && i < b.len() && a[i] == b[i]
        invariant
            i <= a.len(),
            i <= b.len(),
            a@.take(i as int) == b@.take(i as int),
            text_lt(a@, b@) == text_lt(a@.skip(i as int), b@.skip(i as int)),
        decreases a.len() - i,
    {
        proof {
            assert(a@.skip(i as int).drop_first() == a@.skip(i + 1));
            assert(b@.skip(i as int).drop_first() == b@.skip(i + 1));
            assert(a@.take(i + 1) == a@.take(i as int).push(a@[i as int]));
            assert(b@.take(i + 1) == b@.take(i as int).push(b@[i as int]));
        }
        i = i + 1;
    }
    if i == a.len() {
        i < b.len()
    } else if i == b.len() {
        false
    } else {
        assert(a@.skip(i as int)[0] == a@[i as int]);
        assert(b@.skip(i as int)[0] == b@[i as int]);
        (a[i] as u32) < (b[i] as u32)
    }
}

/// A completion percentage as a float compares: a finite fraction, +inf
/// (a part of a zero whole), or NaN (nothing of nothing).
pub enum PercentKey {
    Finite(nat, nat),
    Infinite,
    NotANumber,
}

/// The key of an optional percentage (none counts as 0).
pub open spec fn percent_key(r: Option<Ratio>) -> PercentKey {
    match r {
        None => PercentKey::Finite(0, 1),
        Some(q) => if q.whole > 0 {
            PercentKey::Finite(q.part as nat, q.whole as nat)
        } else if q.part > 0 {
            PercentKey::Infinite
        } else {
            PercentKey::NotANumber
        },
    }
}

/// `x < y` for percentages.
pub open spec fn percent_lt(x: Option<Ratio>, y: Option<Ratio>) -> bool {
    match (percent_key(x), percent_key(y)) {
        (PercentKey::Finite(a, b), PercentKey::Finite(c, d)) => a * d < c * b,
        (PercentKey::Finite(_, _), PercentKey::Infinite) => true,
        _ => false,
    }
}

/// `a/b < c/d < e/f` gives `a/b < e/f` (positive denominators).
proof fn lemma_fraction_lt_transitive(a: nat, b: nat, c: nat, d: nat, e: nat, f: nat)
    requires
        b > 0,
        d > 0,
        f > 0,
        a * d < c * b,
        c * f < e * d,
    ensures
        a * f < e * b,
{
    assert(a * d * f < c * b * f) by (nonlinear_arith)
        requires
            a * d < c * b,
            f > 0,
    ;
    assert(c * f * b < e * d * b) by (nonlinear_arith)
        requires
            c * f < e * d,
            b > 0,
    ;
    assert(c * b * f == c * f * b) by (nonlinear_arith);
    assert(a * f * d < e * b * d) by (nonlinear_arith)
        requires
            a * d * f < e * d * b,
    ;
    assert(a * f < e * b) by (nonlinear_arith)
        requires
            a * f * d < e * b * d,
            d > 0,
    ;
}

/// Percentage order is transitive.
pub proof fn lemma_percent_lt_transitive(x: Option<Ratio>, y: Option<Ratio>, z: Option<Ratio>)
    requires
        percent_lt(x, y),
        percent_lt(y, z),
    ensures
        percent_lt(x, z),
{
    match (percent_key(x), percent_key(y), percent_key(z)) {
        (PercentKey::Finite(a, b), PercentKey::Finite(c, d), PercentKey::Finite(e, f)) => {
            lemma_fraction_lt_transitive(a, b, c, d, e, f);
        },
        _ => {},
    }
}

/// Whether percentage `x` is below percentage `y`.
pub fn percent_less(x: Option<Ratio>, y: Option<Ratio>) -> (r: bool)
    ensures
        r == percent_lt(x, y),
{
    let (a, b): (usize, usize) = match x {
        None => (0, 1),
        Some(q) => (q.part, q.whole),
    };
    let (c, d): (usize, usize) = match y {
        None => (0, 1),
        Some(q) => (q.part, q.whole),
    };
    if b == 0 {
        false
    } else if d == 0 {
        c > 0
    } else {
        proof {
            assert((a as int) * (d as int) <= (u64::MAX as int) * (u64::MAX as int)) by (nonlinear_arith)
                requires
                    0 <= a <= u64::MAX,
                    0 <= d <= u64::MAX,
            ;
            assert((c as int) * (b as int) <= (u64::MAX as int) * (u64::MAX as int)) by (nonlinear_arith)
                requires
                    0 <= c <= u64::MAX,
                    0 <= b <= u64::MAX,
            ;
        }
        let ad = (a as u128) * (d as u128);
        let cb = (c as u128) * (b as u128);
        ad < cb
    }
}

/// The position of a status in the alphabetical order of the status names.
pub open spec fn status_rank(s: JobStatus) -> int {
    match s {
        JobStatus::Banned => 0,
        JobStatus::Completed => 1,
        JobStatus::Failed => 2,
        JobStatus::Pending => 3,
        JobStatus::Queued => 4,
        JobStatus::Running => 5,
        JobStatus::Stopped => 6,
    }
}

fn status_rank_exec(s: JobStatus) -> (r: u8)
    ensures
        r == status_rank(s),
{
    match s {
        JobStatus::Banned => 0,
        JobStatus::Completed => 1,
        JobStatus::Failed => 2,
        JobStatus::Pending => 3,
        JobStatus::Queued => 4,
        JobStatus::Running => 5,
        JobStatus::Stopped => 6,
    }
}

/// Job `a` goes strictly before job `b` in sort order `s`.
pub open spec fn goes_before(s: JobSort, a: JobView, b: JobView) -> bool {
    match s {
        JobSort::CreatedAt => text_lt(b.created_at, a.created_at),
        JobSort::UpdatedAt => text_lt(b.updated_at, a.updated_at),
        JobSort::Progress => percent_lt(b.percent_complete, a.percent_complete),
        JobSort::Status => status_rank(a.status) < status_rank(b.status),
    }
}

/// No job goes before itself.
pub proof fn lemma_goes_before_irreflexive(s: JobSort, a: JobView)
    ensures
        !goes_before(s, a, a),
{
    lemma_text_lt_irreflexive(a.created_at);
    lemma_text_lt_irreflexive(a.updated_at);
}

/// Job order is transitive.
pub proof fn lemma_goes_before_transitive(s: JobSort, a: JobView, b: JobView, c: JobView)
    requires
        goes_before(s, a, b),
        goes_before(s, b, c),
    ensures
        goes_before(s, a, c),
{
    match s {
        JobSort::CreatedAt => lemma_text_lt_transitive(c.created_at, b.created_at, a.created_at),
        JobSort::UpdatedAt => lemma_text_lt_transitive(c.updated_at, b.updated_at, a.updated_at),
        JobSort::Progress => lemma_percent_lt_transitive(
            c.percent_complete,
            b.percent_complete,
            a.percent_complete,
        ),
        JobSort::Status => {},
    }
}

/// No job of the list goes before a job listed earlier.
pub open spec fn sorted_by(l: Seq<JobView>, s: JobSort) -> bool {
    forall|i: int, j: int| 0 <= i < j < l.len() ==> !goes_before(s, #[trigger] l[j], #[trigger] l[i])
}

/// Whether job `a` goes strictly before job `b` in sort order `s`.
pub fn job_goes_before(s: JobSort, a: &Job, b: &Job) -> (r: bool)
    ensures
        r == goes_before(s, a@, b@),
{
    match s {
        JobSort::CreatedAt => {
            let x = crate::text::chars_of(b.created_at.as_str());
            let y = crate::text::chars_of(a.created_at.as_str());
            text_less(&x, &y)
        },
        JobSort::UpdatedAt => {
            let x = crate::text::chars_of(b.updated_at.as_str());
            let y = crate::text::chars_of(a.updated_at.as_str());
            text_less(&x, &y)
        },
        JobSort::Progress => percent_less(b.percent_complete, a.percent_complete),
        JobSort::Status => status_rank_exec(a.status) < status_rank_exec(b.status),
    }
}

/// Sorts jobs in the order `s`; jobs that neither goes before the other may
/// come in any order.
pub fn sort_jobs(jobs: Vec<Job>, s: JobSort) -> (r: Vec<Job>)
    ensures
        jobs_view(r@).to_multiset() == jobs_view(jobs@).to_multiset(),
        sorted_by(jobs_view(r@), s),
{
    let ghost all = jobs_view(jobs@);
    let mut rest = jobs;
    let mut r: Vec<Job> = Vec::new();
    assert(jobs_view(r@) =~= Seq::<JobView>::empty());
    while rest.len() > 0
        invariant
            jobs_view(r@).to_multiset().add(jobs_view(rest@).to_multiset()) == all.to_multiset(),
            sorted_by(jobs_view(r@), s),
            forall|i: int, k: int|
                0 <= i < r@.len() && 0 <= k < rest@.len() ==> !goes_before(
                    s,
                    #[trigger] rest@[k]@,
                    #[trigger] r@[i]@,
                ),
        decreases rest.len(),
    {
        // Pick a job that no other remaining job goes before.
        let mut b: usize = 0;
        let mut k: usize = 1;
        proof {
            lemma_goes_before_irreflexive(s, rest@[0]@);
        }
        while k < rest.len()
            invariant
                0 < rest.len(),
                b < k <= rest.len(),
                forall|m: int| 0 <= m < k ==> !goes_before(s, #[trigger] rest@[m]@, rest@[b as int]@),
            decreases rest.len() - k,
        {
            if job_goes_before(s, &rest[k], &rest[b]) {
                proof {
                    lemma_goes_before_irreflexive(s, rest@[k as int]@);
                    assert forall|m: int| 0 <= m < k + 1 implies !goes_before(
                        s,
                        #[trigger] rest@[m]@,
                        rest@[k as int]@,
                    ) by {
                        if m < k && goes_before(s, rest@[m]@, rest@[k as int]@) {
                            lemma_goes_before_transitive(
                                s,
                                rest@[m]@,
                                rest@[k as int]@,
                                rest@[b as int]@,
                            );
                        }
                    }
                }
                b = k;
            }
            k = k + 1;
        }
        let ghost before_r = r@;
        let ghost before_rest = rest@;
        let x = rest.remove(b);
        proof {
            assert(jobs_view(rest@) =~= jobs_view(before_rest).remove(b as int));
            assert(jobs_view(before_rest)[b as int] == x@);
            lemma_jobs_view_push(before_r, x);
        }
        r.push(x);
        proof {
            let vr = jobs_view(r@);
            assert forall|i: int, j: int| 0 <= i < j < vr.len() implies !goes_before(
                s,
                #[trigger] vr[j],
                #[trigger] vr[i],
            ) by {
                if j == vr.len() - 1 {
                    assert(vr[j] == before_rest[b as int]@);
                    assert(vr[i] == before_r[i]@);
                } else {
                    assert(vr[j] == jobs_view(before_r)[j]);
                    assert(vr[i] == jobs_view(before_r)[i]);
                }
            }
            assert forall|i: int, k2: int|
                0 <= i < r@.len() && 0 <= k2 < rest@.len() implies !goes_before(
                s,
                #[trigger] rest@[k2]@,
                #[trigger] r@[i]@,
            ) by {
                let k0 = if k2 < b {
                    k2
                } else {
                    k2 + 1
                };
                assert(rest@[k2] == before_rest[k0]);
                if i == r@.len() - 1 {
                    assert(r@[i] == before_rest[b as int]);
                } else {
                    assert(r@[i] == before_r[i]);
                }
            }
        }
    }
    assert(jobs_view(rest@) =~= Seq::<JobView>::empty());
    r
}

} // verus!
