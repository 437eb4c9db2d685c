//! Run reports: per-target status, the per-group summary, and the top-level
//! summary across all groups. A group is fully healthy exactly when none of
//! its targets reports not-running; healthy groups contribute no entry to
//! the top-level problems listing, while the totals always count them.

use vstd::prelude::*;

verus! {

/// The status one orchestration pass records for a single target.
#[derive(Clone, Debug)]
pub struct TargetStatus {
    pub id: String,
    pub is_running: bool,
    pub log_tail: String,
}

/// One group's summary: how many targets it holds and which ids are not
/// running, in the group's declared order.
#[derive(Clone, Debug)]
pub struct GroupSummary {
    pub group_name: String,
    pub target_count: usize,
    pub not_running: Vec<String>,
}

/// One entry of the top-level problems listing: a group with at least one
/// target not running.
#[derive(Clone, Debug)]
pub struct GroupProblem {
    pub group_name: String,
    pub not_running: Vec<String>,
}

/// The top-level summary across every group of one run.
#[derive(Clone, Debug)]
pub struct OverallSummary {
    pub total_target_count: usize,
    pub not_running_target_count: usize,
    pub problems: Vec<GroupProblem>,
}

/// The ids of the targets that are not running, in order.
pub open spec fn stopped_ids(s: Seq<TargetStatus>) -> Seq<String>
    decreases s.len(),
{
    if s.len() == 0 {
        Seq::empty()
    } else if !s.last().is_running {
        stopped_ids(s.drop_last()).push(s.last().id)
    } else {
        stopped_ids(s.drop_last())
    }
}

/// How many targets are not running.
pub open spec fn not_running_count(s: Seq<TargetStatus>) -> nat
    decreases s.len(),
{
    if s.len() == 0 {
        0
    } else {
        not_running_count(s.drop_last()) + (if s.last().is_running {
            0nat
        } else {
            1nat
        })
    }
}

/// Of `N` targets with `K` not running, the summary's not-running list has
/// exactly `K` entries, and the group counts as fully healthy — an empty
/// not-running list — exactly when `K` is zero.
pub proof fn lemma_group_summary_counts(s: Seq<TargetStatus>)
    ensures
        stopped_ids(s).len() == not_running_count(s),
        not_running_count(s) <= s.len(),
        (stopped_ids(s).len() == 0) <==> (forall|i: int| 0 <= i < s.len() ==> s[i].is_running),
    decreases s.len(),
{
    if s.len() > 0 {
        let d = s.drop_last();
        lemma_group_summary_counts(d);
        assert(forall|i: int| 0 <= i < d.len() ==> #[trigger] d[i] == s[i]);
        assert(s.last() == s[s.len() - 1]);
        if stopped_ids(s).len() == 0 {
            assert(s.last().is_running);
            assert forall|i: int| 0 <= i < s.len() implies s[i].is_running by {
                if i < s.len() - 1 {
                    assert(d[i].is_running);
                }
            }
        }
        if forall|i: int| 0 <= i < s.len() ==> s[i].is_running {
            assert forall|i: int| 0 <= i < d.len() implies d[i].is_running by {
                assert(s[i].is_running);
            }
            assert(stopped_ids(d).len() == 0);
            assert(s[s.len() - 1].is_running);
        }
    }
}

/// Builds one group's summary from the statuses its targets reported, in the
/// group's declared order.
pub fn group_summary(group_name: String, statuses: &Vec<TargetStatus>) -> (r: GroupSummary)
    ensures
        r.group_name == group_name,
        r.target_count == statuses@.len(),
        r.not_running@ == stopped_ids(statuses@),
{
    let mut not_running: Vec<String> = Vec::new();
    let n = statuses.len();
    let mut i: usize = 0;
    proof {
        assert(statuses@.subrange(0, 0) =~= Seq::<TargetStatus>::empty());
    }
    while i < n
        invariant
            i <= n == statuses@.len(),
            not_running@ == stopped_ids(statuses@.subrange(0, i as int)),
        decreases n - i,
    {
        proof {
            assert(statuses@.subrange(0, i + 1).drop_last() =~= statuses@.subrange(0, i as int));
            assert(statuses@.subrange(0, i + 1).last() == statuses@[i as int]);
        }
        if !statuses[i].is_running {
            not_running.push(statuses[i].id.clone());
        }
        i = i + 1;
    }
    proof {
        assert(statuses@.subrange(0, n as int) =~= statuses@);
    }
    GroupSummary { group_name, target_count: n, not_running }
}

impl GroupSummary {
    /// Whether every target of the group is running.
    pub fn fully_healthy(&self) -> (r: bool)
        ensures
            r == (self.not_running@.len() == 0),
    {
        self.not_running.len() == 0
    }
}

/// Sum of the groups' target counts.
pub open spec fn total_target_count_of(gs: Seq<GroupSummary>) -> int
    decreases gs.len(),
{
    if gs.len() == 0 {
        0
    } else {
        total_target_count_of(gs.drop_last()) + gs.last().target_count
    }
}

/// Sum of the groups' not-running counts.
pub open spec fn total_not_running_count_of(gs: Seq<GroupSummary>) -> int
    decreases gs.len(),
{
    if gs.len() == 0 {
        0
    } else {
        total_not_running_count_of(gs.drop_last()) + gs.last().not_running@.len()
    }
}

/// The top-level problems listing: one entry per group with at least one
/// target not running, in order; fully healthy groups are omitted.
pub open spec fn problem_entries(gs: Seq<GroupSummary>) -> Seq<GroupProblem>
    decreases gs.len(),
{
    if gs.len() == 0 {
        Seq::empty()
    } else {
        let rest = problem_entries(gs.drop_last());
        if gs.last().not_running@.len() > 0 {
            rest.push(
                (GroupProblem {
                    group_name: gs.last().group_name,
                    not_running: gs.last().not_running,
                }),
            )
        } else {
            rest
        }
    }
}

/// The built problems listing and its specification agree entry by entry:
/// same group names and, as character data, the same not-running ids.
pub open spec fn problems_match(built: Seq<GroupProblem>, model: Seq<GroupProblem>) -> bool {
    built.len() == model.len() && forall|k: int|
        0 <= k < built.len() ==> #[trigger] built[k].group_name == model[k].group_name
            && built[k].not_running@ == model[k].not_running@
}

proof fn lemma_totals_prefix_le(gs: Seq<GroupSummary>, j: int)
    requires
        0 <= j <= gs.len(),
    ensures
        total_target_count_of(gs.subrange(0, j)) <= total_target_count_of(gs),
        total_not_running_count_of(gs.subrange(0, j)) <= total_not_running_count_of(gs),
    decreases gs.len() - j,
{
    if j == gs.len() {
        assert(gs.subrange(0, j) =~= gs);
    } else {
        lemma_totals_prefix_le(gs, j + 1);
        assert(gs.subrange(0, j + 1).drop_last() =~= gs.subrange(0, j));
        assert(gs.subrange(0, j + 1).last() == gs[j]);
    }
}

fn clone_string_vec(v: &Vec<String>) -> (r: Vec<String>)
    ensures
        r@ == v@,
{
    let mut r: Vec<String> = Vec::new();
    let n = v.len();
    let mut i: usize = 0;
    while i < n
        invariant
            i <= n == v@.len(),
            r@ == v@.subrange(0, i as int),
        decreases n - i,
    {
        r.push(v[i].clone());
        proof {
            assert(v@.subrange(0, i + 1) =~= v@.subrange(0, i as int).push(v@[i as int]));
        }
        i = i + 1;
    }
    proof {
        assert(v@.subrange(0, n as int) =~= v@);
    }
    r
}

/// Builds the top-level summary across every group of one run: the total
/// target count and total not-running count are the sums over the groups,
/// and the problems listing holds exactly the groups that are not fully
/// healthy, in order.
pub fn overall_summary(summaries: &Vec<GroupSummary>) -> (r: OverallSummary)
    requires
        total_target_count_of(summaries@) <= usize::MAX,
        total_not_running_count_of(summaries@) <= usize::MAX,
    ensures
        r.total_target_count == total_target_count_of(summaries@),
        r.not_running_target_count == total_not_running_count_of(summaries@),
        problems_match(r.problems@, problem_entries(summaries@)),
{
    let mut total: usize = 0;
    let mut stopped: usize = 0;
    let mut problems: Vec<GroupProblem> = Vec::new();
    let n = summaries.len();
    let mut i: usize = 0;
    proof {
        assert(summaries@.subrange(0, 0) =~= Seq::<GroupSummary>::empty());
    }
    while i < n
        invariant
            i <= n == summaries@.len(),
            total == total_target_count_of(summaries@.subrange(0, i as int)),
            stopped == total_not_running_count_of(summaries@.subrange(0, i as int)),
            problems_match(problems@, problem_entries(summaries@.subrange(0, i as int))),
            total_target_count_of(summaries@) <= usize::MAX,
            total_not_running_count_of(summaries@) <= usize::MAX,
        decreases n - i,
    {
        proof {
            assert(summaries@.subrange(0, i + 1).drop_last() =~= summaries@.subrange(0, i as int));
            assert(summaries@.subrange(0, i + 1).last() == summaries@[i as int]);
            lemma_totals_prefix_le(summaries@, i + 1);
        }
        let g = &summaries[i];
        total = total + g.target_count;
        stopped = stopped + g.not_running.len();
        if g.not_running.len() > 0 {
            problems.push(GroupProblem {
                group_name: g.group_name.clone(),
                not_running: clone_string_vec(&g.not_running),
            });
        }
        i = i + 1;
    }
    proof {
        assert(summaries@.subrange(0, n as int) =~= summaries@);
    }
    OverallSummary { total_target_count: total, not_running_target_count: stopped, problems }
}

/// A fully healthy group contributes no entry to the problems listing, and
/// every entry listed comes from a group with at least one target stopped:
/// the listing is empty exactly when every group is fully healthy.
pub proof fn lemma_problems_omit_healthy(gs: Seq<GroupSummary>)
    ensures
        problem_entries(gs).len() <= gs.len(),
        forall|k: int| 0 <= k < problem_entries(gs).len() ==> #[trigger] problem_entries(
            gs,
        )[k].not_running@.len() > 0,
        (problem_entries(gs).len() == 0) <==> (forall|i: int|
            0 <= i < gs.len() ==> #[trigger] gs[i].not_running@.len() == 0),
    decreases gs.len(),
{
    if gs.len() > 0 {
        let d = gs.drop_last();
        lemma_problems_omit_healthy(d);
        assert(forall|i: int| 0 <= i < d.len() ==> #[trigger] d[i] == gs[i]);
        assert(gs.last() == gs[gs.len() - 1]);
        if problem_entries(gs).len() == 0 {
            assert(gs.last().not_running@.len() == 0);
            assert forall|i: int| 0 <= i < gs.len() implies #[trigger] gs[i].not_running@.len()
                == 0 by {
                if i < gs.len() - 1 {
                    assert(d[i].not_running@.len() == 0);
                }
            }
        }
        if forall|i: int| 0 <= i < gs.len() ==> #[trigger] gs[i].not_running@.len() == 0 {
            assert forall|i: int| 0 <= i < d.len() implies #[trigger] d[i].not_running@.len()
                == 0 by {
                assert(gs[i].not_running@.len() == 0);
            }
            assert(problem_entries(d).len() == 0);
            assert(gs[gs.len() - 1].not_running@.len() == 0);
        }
    }
}

} // verus!
