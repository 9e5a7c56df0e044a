//! What a whole run of the scheduler does.
//!
//! The scheduler sees of each coroutine only whether it has finished, and a
//! coroutine shows the scheduler only how often it suspends itself before its
//! payload returns. Over these two the run is a function, and its length and
//! order can be stated once and for all.

use vstd::prelude::*;
use crate::coroutine::platform::{Control, FINISHED, YIELDED};
use crate::coroutine::{flags, schedule, state_after, Coroutine, State};

verus! {

/// The first position in `from..to` whose coroutine has not finished.
pub open spec fn first_pending(finished: Seq<bool>, from: int, to: int) -> Option<int>
    decreases to - from,
{
    if from >= to {
        None
    } else if !finished[from] {
        Some(from)
    } else {
        first_pending(finished, from + 1, to)
    }
}

/// The position at which a scan that was asked to start at `from` starts: a
/// position past the end is the end.
pub open spec fn scan_start(len: int, from: int) -> int {
    if from < 0 {
        0
    } else if from > len {
        len
    } else {
        from
    }
}

/// The coroutine that a round-robin scheduler resumes next when the current
/// pass has come to `from`: the first unfinished one at or after `from`, or,
/// when the pass ends without one, the first unfinished one of the next pass.
/// There is none when all have finished.
pub open spec fn next_pending(finished: Seq<bool>, from: int) -> Option<int> {
    let start = scan_start(finished.len() as int, from);
    match first_pending(finished, start, finished.len() as int) {
        Some(i) => Some(i),
        None => first_pending(finished, 0, start),
    }
}

/// What the first unfinished position of a range is: it lies in the range,
/// it has not finished, and all before it in the range have. There is none
/// exactly when all of the range have finished.
pub proof fn lemma_first_pending(finished: Seq<bool>, from: int, to: int)
    requires
        0 <= from <= to <= finished.len(),
    ensures
        first_pending(finished, from, to) is None <==> (forall|j: int|
            from <= j < to ==> finished[j]),
        first_pending(finished, from, to) matches Some(i) ==> from <= i < to && !finished[i] && (
        forall|j: int| from <= j < i ==> finished[j]),
    decreases to - from,
{
    if from < to && finished[from] {
        lemma_first_pending(finished, from + 1, to);
    }
}

/// Round robin: the scheduler stops exactly when every coroutine has
/// finished. Otherwise it resumes an unfinished coroutine, and every
/// coroutine that it passes over on the way from `from` to that one, around
/// the end of the collection if need be, has finished.
pub proof fn lemma_next_pending(finished: Seq<bool>, from: int)
    ensures
        next_pending(finished, from) is None <==> (forall|j: int|
            0 <= j < finished.len() ==> finished[j]),
        next_pending(finished, from) matches Some(i) ==> 0 <= i < finished.len() && !finished[i]
            && (forall|j: int|
            passed_over(finished.len() as int, scan_start(finished.len() as int, from), i, j)
                ==> finished[j]),
{
    let len = finished.len() as int;
    let start = scan_start(len, from);
    lemma_first_pending(finished, start, len);
    lemma_first_pending(finished, 0, start);
}

/// Whether a scan of `len` positions that starts at `start` and stops at
/// `stop` goes over position `j` before it stops, around the end if `stop`
/// lies before `start`.
pub open spec fn passed_over(len: int, start: int, stop: int, j: int) -> bool {
    if start <= stop {
        start <= j < stop
    } else {
        start <= j < len || 0 <= j < stop
    }
}

/// What the scheduler can know of one coroutine's future: whether it has
/// finished, and how often it will still suspend itself before its payload
/// returns.
pub struct Plan {
    pub finished: bool,
    pub yields: nat,
}

/// The finished flags of a collection of plans.
pub open spec fn flags_of(plans: Seq<Plan>) -> Seq<bool> {
    Seq::new(plans.len(), |i: int| plans[i].finished)
}

/// The word that comes back from a resumption of a coroutine that will still
/// suspend itself `yields` times.
pub open spec fn sentinel(yields: nat) -> usize {
    if yields == 0 {
        FINISHED
    } else {
        YIELDED
    }
}

/// The plan of a coroutine after one resumption.
pub open spec fn resumed(plan: Plan) -> Plan {
    Plan {
        finished: state_after(sentinel(plan.yields)) == State::Finished,
        yields: if plan.yields == 0 {
            0
        } else {
            (plan.yields - 1) as nat
        },
    }
}

/// The resumptions that one coroutine still needs.
pub open spec fn cost(plan: Plan) -> nat {
    if plan.finished {
        0
    } else {
        plan.yields + 1
    }
}

/// The resumptions that all coroutines together still need.
pub open spec fn work(plans: Seq<Plan>) -> nat
    decreases plans.len(),
{
    if plans.len() == 0 {
        0
    } else {
        work(plans.drop_last()) + cost(plans.last())
    }
}

/// Replacing one plan changes the work by the difference of the two costs.
pub proof fn lemma_work_update(plans: Seq<Plan>, i: int, plan: Plan)
    requires
        0 <= i < plans.len(),
    ensures
        work(plans.update(i, plan)) + cost(plans[i]) == work(plans) + cost(plan),
    decreases plans.len(),
{
    let after = plans.update(i, plan);
    if i == plans.len() - 1 {
        assert(after.drop_last() =~= plans.drop_last());
    } else {
        lemma_work_update(plans.drop_last(), i, plan);
        assert(after.drop_last() =~= plans.drop_last().update(i, plan));
    }
}

/// The coroutines that a run resumes, in order, when the scheduler starts at
/// position `from`: again and again the next unfinished one, until none is
/// left.
pub open spec fn resumes(plans: Seq<Plan>, from: int) -> Seq<int>
    decreases work(plans),
{
    match next_pending(flags_of(plans), from) {
        None => Seq::empty(),
        Some(i) => {
            proof {
                lemma_next_pending(flags_of(plans), from);
                lemma_work_update(plans, i, resumed(plans[i]));
            }
            seq![i] + resumes(plans.update(i, resumed(plans[i])), i + 1)
        },
    }
}

/// A run ends, and it resumes each coroutine once for each time that the
/// coroutine suspends itself and once more for its payload to return.
pub proof fn lemma_resumes_len(plans: Seq<Plan>, from: int)
    ensures
        resumes(plans, from).len() == work(plans),
    decreases work(plans),
{
    match next_pending(flags_of(plans), from) {
        None => {
            lemma_next_pending(flags_of(plans), from);
            assert forall|j: int| 0 <= j < plans.len() implies plans[j].finished by {
                assert(flags_of(plans)[j]);
            }
            lemma_work_of_finished(plans);
        },
        Some(i) => {
            lemma_next_pending(flags_of(plans), from);
            lemma_work_update(plans, i, resumed(plans[i]));
            lemma_resumes_len(plans.update(i, resumed(plans[i])), i + 1);
        },
    }
}

/// How often position `i` occurs in `trace`.
pub open spec fn occurrences(trace: Seq<int>, i: int) -> nat
    decreases trace.len(),
{
    if trace.len() == 0 {
        0
    } else {
        occurrences(trace.drop_first(), i) + if trace.first() == i {
            1nat
        } else {
            0nat
        }
    }
}

/// A run gives every coroutine exactly the resumptions that it needs: one
/// for each time that it suspends itself and one more for its payload to
/// return, and none once it has finished.
pub proof fn lemma_resumes_each(plans: Seq<Plan>, from: int, i: int)
    requires
        0 <= i < plans.len(),
    ensures
        occurrences(resumes(plans, from), i) == cost(plans[i]),
    decreases work(plans),
{
    lemma_next_pending(flags_of(plans), from);
    match next_pending(flags_of(plans), from) {
        None => {
            assert(flags_of(plans)[i]);
        },
        Some(x) => {
            let next = plans.update(x, resumed(plans[x]));
            let rest = resumes(next, x + 1);
            lemma_work_update(plans, x, resumed(plans[x]));
            lemma_resumes_each(next, x + 1, i);
            assert(!flags_of(plans)[x]);
            assert((seq![x] + rest).drop_first() =~= rest);
        },
    }
}

/// Coroutines that have all finished need no resumption.
pub proof fn lemma_work_of_finished(plans: Seq<Plan>)
    requires
        forall|j: int| 0 <= j < plans.len() ==> plans[j].finished,
    ensures
        work(plans) == 0,
    decreases plans.len(),
{
    if plans.len() > 0 {
        lemma_work_of_finished(plans.drop_last());
    }
}

/// `n` coroutines that have not started and will each suspend themselves
/// `k` times.
pub open spec fn fresh(n: nat, k: nat) -> Seq<Plan> {
    Seq::new(n, |i: int| Plan { finished: false, yields: k })
}

/// `n` fresh coroutines of `k` suspensions each need `n * (k + 1)`
/// resumptions.
pub proof fn lemma_work_of_fresh(n: nat, k: nat)
    ensures
        work(fresh(n, k)) == n * (k + 1),
    decreases n,
{
    if n > 0 {
        lemma_work_of_fresh((n - 1) as nat, k);
        assert(fresh(n, k).drop_last() =~= fresh((n - 1) as nat, k));
        assert((n - 1) * (k + 1) + (k + 1) == n * (k + 1)) by (nonlinear_arith);
    } else {
        assert(0 * (k + 1) == 0) by (nonlinear_arith);
    }
}

/// A run over `n` coroutines that each suspend themselves exactly `k` times
/// before they return makes exactly `n * (k + 1)` resumptions and ends.
pub proof fn lemma_run_of_equals(n: nat, k: nat)
    ensures
        resumes(fresh(n, k), 0).len() == n * (k + 1),
{
    lemma_resumes_len(fresh(n, k), 0);
    lemma_work_of_fresh(n, k);
}

/// A scan that is asked to start at the end of the collection starts the next
/// pass at once.
pub proof fn lemma_resumes_from_end(plans: Seq<Plan>)
    ensures
        resumes(plans, plans.len() as int) == resumes(plans, 0),
{
    let finished = flags_of(plans);
    assert(next_pending(finished, finished.len() as int) == next_pending(finished, 0));
}

/// The plan of a coroutine of `k` suspensions after `m` resumptions.
pub open spec fn after(k: nat, m: nat) -> Plan {
    Plan {
        finished: m > k,
        yields: if m >= k {
            0
        } else {
            (k - m) as nat
        },
    }
}

/// The plans of `n` coroutines of `k` suspensions each in the round after
/// `q` full rounds, when the first `r` of them have had their turn.
pub open spec fn in_round(n: nat, k: nat, q: nat, r: nat) -> Seq<Plan> {
    Seq::new(
        n,
        |i: int|
            after(
                k,
                if i < r {
                    q + 1
                } else {
                    q
                },
            ),
    )
}

/// From the middle of a round on, equal coroutines are resumed one after the
/// other in the order of the collection, around its end, for as long as the
/// run lasts.
pub proof fn lemma_turns_in_round(n: nat, k: nat, q: nat, r: nat, j: int)
    requires
        r < n,
        q <= k,
        0 <= j < n * (k + 1) - (q * n + r),
    ensures
        resumes(in_round(n, k, q, r), r as int).len() > j,
        resumes(in_round(n, k, q, r), r as int)[j] == (r + j) % (n as int),
    decreases j,
{
    let plans = in_round(n, k, q, r);
    let finished = flags_of(plans);
    assert(!finished[r as int]);
    assert(first_pending(finished, r as int, n as int) == Some(r as int));
    assert(next_pending(finished, r as int) == Some(r as int));
    let next = plans.update(r as int, resumed(plans[r as int]));
    assert(resumes(plans, r as int) == seq![r as int] + resumes(next, (r + 1) as int));
    if j == 0 {
        vstd::arithmetic::div_mod::lemma_small_mod(r, n);
    } else if r + 1 < n {
        assert(next =~= in_round(n, k, q, (r + 1) as nat));
        lemma_turns_in_round(n, k, q, (r + 1) as nat, j - 1);
    } else {
        assert((q + 1) * n == q * n + n) by (nonlinear_arith);
        assert(q < k) by (nonlinear_arith)
            requires
                q <= k,
                0 < n,
                0 < n * (k + 1) - (q + 1) * n,
        ;
        assert(next =~= in_round(n, k, q + 1, 0));
        lemma_resumes_from_end(next);
        lemma_turns_in_round(n, k, q + 1, 0, j - 1);
        vstd::arithmetic::div_mod::lemma_mod_add_multiples_vanish(j - 1, n as int);
    }
}

/// Round robin among equals: in a run over `n` coroutines that each suspend
/// themselves exactly `k` times, the resumption number `j` goes to the
/// coroutine at position `j` modulo `n`.
pub proof fn lemma_run_of_equals_takes_turns(n: nat, k: nat, j: int)
    requires
        0 <= j < n * (k + 1),
    ensures
        resumes(fresh(n, k), 0).len() == n * (k + 1),
        resumes(fresh(n, k), 0)[j] == j % (n as int),
{
    lemma_run_of_equals(n, k);
    assert(n > 0) by (nonlinear_arith)
        requires
            0 < n * (k + 1),
    ;
    assert(0 * n == 0) by (nonlinear_arith);
    assert(fresh(n, k) =~= in_round(n, k, 0, 0));
    lemma_turns_in_round(n, k, 0, 0, j);
}

/// The plans of coroutines that have not started and will suspend themselves
/// as often as `yields` says, one entry for each.
pub open spec fn planned(yields: Seq<usize>) -> Seq<Plan> {
    Seq::new(yields.len(), |i: int| Plan { finished: false, yields: yields[i] as nat })
}

/// The plans of the coroutines `coros`, of which each will still suspend
/// itself as often as `left` says.
pub open spec fn plans_of<C>(coros: Seq<Coroutine<C>>, left: Seq<usize>) -> Seq<Plan> {
    Seq::new(coros.len(), |i: int| Plan { finished: coros[i].finished(), yields: left[i] as nat })
}

/// Positions as the scheduler's model counts them.
pub open spec fn positions(trace: Seq<usize>) -> Seq<int> {
    Seq::new(trace.len(), |i: int| trace[i] as int)
}

/// Plays a whole run through without any payload: one fresh handle for each
/// entry of `yields`, each of which is taken to suspend itself that many
/// times and then to return. The result names the handles in the order in
/// which the scheduler resumes them, until all have finished.
pub fn rehearse(yields: &Vec<usize>) -> (trace: Vec<usize>)
    ensures
        positions(trace@) == resumes(planned(yields@), 0),
        trace@.len() == work(planned(yields@)),
{
    let n: usize = yields.len();
    let mut coros: Vec<Coroutine<()>> = Vec::new();
    let mut left: Vec<usize> = Vec::new();
    let mut k: usize = 0;
    while k < n
        invariant
            k <= n,
            n == yields@.len(),
            coros@.len() == k,
            left@.len() == k,
            forall|j: int| 0 <= j < k ==> !(#[trigger] coros@[j]).finished(),
            forall|j: int| 0 <= j < k ==> #[trigger] left@[j] == yields@[j],
        decreases n - k,
    {
        coros.push(Coroutine::new((), k));
        left.push(yields[k]);
        k += 1;
    }
    assert(plans_of(coros@, left@) =~= planned(yields@));
    let mut control = Control::new();
    let mut trace: Vec<usize> = Vec::new();
    let mut from: usize = 0;
    let mut next: Option<usize> = schedule(coros.as_slice(), from);
    assert(positions(trace@) + resumes(plans_of(coros@, left@), from as int) =~= resumes(
        planned(yields@),
        0,
    ));
    while next.is_some()
        invariant
            coros@.len() == n,
            left@.len() == n,
            !control.in_flight(),
            from <= n,
            crate::coroutine::position(next) == next_pending(flags(coros@), from as int),
            positions(trace@) + resumes(plans_of(coros@, left@), from as int) == resumes(
                planned(yields@),
                0,
            ),
        decreases work(plans_of(coros@, left@)),
    {
        let i: usize = next.unwrap();
        let ghost before = plans_of(coros@, left@);
        let ghost done = positions(trace@);
        proof {
            assert(flags(coros@) =~= flags_of(before));
            lemma_next_pending(flags_of(before), from as int);
            lemma_work_update(before, i as int, resumed(before[i as int]));
        }
        let _ = coros[i].resume(&mut control);
        let remaining: usize = left[i];
        let returned: usize = if remaining == 0 {
            FINISHED
        } else {
            left[i] = remaining - 1;
            YIELDED
        };
        coros[i].settle(&mut control, returned);
        trace.push(i);
        from = i + 1;
        next = schedule(coros.as_slice(), from);
        proof {
            assert(plans_of(coros@, left@) =~= before.update(i as int, resumed(before[i as int])));
            assert(positions(trace@) =~= done + seq![i as int]);
            assert(done + (seq![i as int] + resumes(plans_of(coros@, left@), from as int)) =~= (done
                + seq![i as int]) + resumes(plans_of(coros@, left@), from as int));
        }
    }
    proof {
        assert(flags(coros@) =~= flags_of(plans_of(coros@, left@)));
        assert(positions(trace@) + Seq::<int>::empty() =~= positions(trace@));
        lemma_resumes_len(planned(yields@), 0);
    }
    trace
}

} // verus!
