//! Round-robin fairness. While the set of ready kernel threads stays the same,
//! each decision moves to the next ready thread in cyclic order, so every one
//! of `N` ready threads runs within `N` decisions and the order repeats with
//! period `N`.
use vstd::prelude::*;
use vstd::set_lib::*;
use crate::context::Cpu;
use crate::registry::TaskList;
use crate::scheduler::{
    dispatched,
    first_candidate_from,
    is_candidate,
    lemma_first_candidate,
    next_task,
    rr_index,
};
use crate::task::{Task, TaskState};

verus! {

/// How many steps forward from `c` reach `i` among `n` places; `n` for `c`
/// itself.
pub open spec fn rr_offset(n: int, c: int, i: int) -> int {
    if i > c {
        i - c
    } else {
        i - c + n
    }
}

/// The least `k' >= k` whose place `k'` steps after `c` is in `ready`.
pub open spec fn first_ready_from(ready: Set<int>, n: int, c: int, k: int) -> Option<int>
    decreases n - k,
{
    if k >= n || k < 1 {
        None
    } else if ready.contains(rr_index(n, c, k)) {
        Some(k)
    } else {
        first_ready_from(ready, n, c, k + 1)
    }
}

/// The next ready place after `c` in cyclic order; `c` itself when no other
/// place is ready.
pub open spec fn rr_next(ready: Set<int>, n: int, c: int) -> int {
    match first_ready_from(ready, n, c, 1) {
        Some(k) => rr_index(n, c, k),
        None => c,
    }
}

/// `rr_next` applied `j` times from `c`.
pub open spec fn rr_iter(ready: Set<int>, n: int, c: int, j: nat) -> int
    decreases j,
{
    if j == 0 {
        c
    } else {
        rr_next(ready, n, rr_iter(ready, n, c, (j - 1) as nat))
    }
}

/// The ready places strictly between `c` and `t` going forward from `c`.
pub open spec fn between(ready: Set<int>, n: int, c: int, t: int) -> Set<int> {
    ready.filter(|i: int| 0 < rr_offset(n, c, i) < rr_offset(n, c, t))
}

/// The kernel threads the scheduler may pick: every task but the idle task
/// that is runnable or running.
pub open spec fn ready_set(tasks: Seq<Task>) -> Set<int> {
    Set::new(|i: int| 1 <= i < tasks.len() && tasks[i].is_selectable())
}

/// A registry state whose current task is a ready kernel thread and the only
/// running task.
pub open spec fn is_steady(tasks: Seq<Task>, cur: int) -> bool {
    &&& 1 <= cur < tasks.len()
    &&& tasks[cur].state == TaskState::Running
    &&& forall|i: int| 0 <= i < tasks.len() && i != cur ==> (#[trigger] tasks[i]).state != TaskState::Running
}

proof fn lemma_first_ready(ready: Set<int>, n: int, c: int, k: int)
    requires
        1 <= k,
    ensures
        first_ready_from(ready, n, c, k) matches Some(k0) ==> {
            &&& k <= k0 < n
            &&& ready.contains(rr_index(n, c, k0))
            &&& forall|k1: int| k <= k1 < k0 ==> !ready.contains(#[trigger] rr_index(n, c, k1))
        },
        first_ready_from(ready, n, c, k) is None ==> forall|k1: int|
            k <= k1 < n ==> !ready.contains(#[trigger] rr_index(n, c, k1)),
    decreases n - k,
{
    if k < n && !ready.contains(rr_index(n, c, k)) {
        lemma_first_ready(ready, n, c, k + 1);
    }
}

proof fn lemma_iter_shift(ready: Set<int>, n: int, c: int, j: nat)
    ensures
        rr_iter(ready, n, c, j + 1) == rr_iter(ready, n, rr_next(ready, n, c), j),
    decreases j,
{
    let s = rr_next(ready, n, c);
    assert(rr_iter(ready, n, c, j + 1) == rr_next(ready, n, rr_iter(ready, n, c, j)));
    if j > 0 {
        lemma_iter_shift(ready, n, c, (j - 1) as nat);
        assert(rr_iter(ready, n, c, j) == rr_iter(ready, n, s, (j - 1) as nat));
        assert(rr_iter(ready, n, s, j) == rr_next(ready, n, rr_iter(ready, n, s, (j - 1) as nat)));
    } else {
        assert(rr_iter(ready, n, c, 0) == c);
        assert(rr_iter(ready, n, s, 0) == s);
    }
}

/// Going forward from `c` to `t`, the next ready place is `t` when nothing
/// ready lies between, and otherwise the nearest one between, which leaves
/// one place fewer between it and `t`.
proof fn lemma_step_toward(ready: Set<int>, n: int, c: int, t: int)
    requires
        ready.finite(),
        0 <= c < n,
        0 <= t < n,
        c != t,
        ready.contains(t),
        forall|i: int| ready.contains(i) ==> 0 <= i < n,
    ensures
        ({
            let s = rr_next(ready, n, c);
            &&& s != c
            &&& ready.contains(s)
            &&& between(ready, n, c, t).len() == 0 ==> s == t
            &&& between(ready, n, c, t).len() > 0 ==> {
                &&& between(ready, n, c, t).contains(s)
                &&& between(ready, n, s, t) == between(ready, n, c, t).remove(s)
            }
        }),
{
    let kt = rr_offset(n, c, t);
    assert(rr_index(n, c, kt) == t);
    lemma_first_ready(ready, n, c, 1);
    let b = between(ready, n, c, t);
    lemma_len_subset(b, ready);
    match first_ready_from(ready, n, c, 1) {
        Some(k0) => {
            let s = rr_index(n, c, k0);
            assert(rr_offset(n, c, s) == k0);
            assert(k0 <= kt);
            if k0 == kt {
                assert(s == t);
                if b.len() > 0 {
                    let x = b.choose();
                    assert(b.contains(x));
                    assert(rr_index(n, c, rr_offset(n, c, x)) == x);
                }
            } else {
                assert(b.contains(s));
                let b2 = between(ready, n, s, t);
                assert forall|i: int| b2.contains(i) <==> b.remove(s).contains(i) by {
                    if ready.contains(i) && i != s && i != c {
                        let ki = rr_offset(n, c, i);
                        assert(rr_index(n, c, ki) == i);
                        if ki < k0 {
                            assert(!ready.contains(rr_index(n, c, ki)));
                        }
                    }
                }
                assert(b2 =~= b.remove(s));
            }
        },
        None => {
            assert(!ready.contains(rr_index(n, c, kt)));
        },
    }
}

/// From `c`, the ready place `t` is reached after exactly one step more than
/// there are ready places between them.
proof fn lemma_reach(ready: Set<int>, n: int, c: int, t: int)
    requires
        ready.finite(),
        0 <= c < n,
        0 <= t < n,
        c != t,
        ready.contains(t),
        forall|i: int| ready.contains(i) ==> 0 <= i < n,
    ensures
        rr_iter(ready, n, c, between(ready, n, c, t).len() + 1) == t,
    decreases between(ready, n, c, t).len(),
{
    lemma_step_toward(ready, n, c, t);
    let s = rr_next(ready, n, c);
    let b = between(ready, n, c, t);
    lemma_len_subset(b, ready);
    if b.len() == 0 {
        assert(rr_iter(ready, n, c, 1) == rr_next(ready, n, rr_iter(ready, n, c, 0)));
    } else {
        assert(between(ready, n, s, t).len() == b.len() - 1);
        lemma_reach(ready, n, s, t);
        lemma_iter_shift(ready, n, c, b.len());
    }
}

/// Round-robin over a fixed set of `N >= 2` ready places: starting from a
/// ready place `c`, every ready place comes up within `N` steps, and after
/// exactly `N` steps the order is back at `c`, so it repeats with period `N`.
pub proof fn lemma_round_robin_period(ready: Set<int>, n: int, c: int, t: int)
    requires
        ready.finite(),
        ready.len() >= 2,
        forall|i: int| ready.contains(i) ==> 0 <= i < n,
        ready.contains(c),
        ready.contains(t),
    ensures
        exists|j: nat| 1 <= j <= ready.len() && rr_iter(ready, n, c, j) == t,
        rr_iter(ready, n, c, ready.len()) == c,
        forall|j: nat| #[trigger] rr_iter(ready, n, c, j + ready.len()) == rr_iter(ready, n, c, j),
{
    let big_n = ready.len();
    // some other ready place exists, so the first step leaves `c`
    let others = ready.remove(c);
    assert(others.len() == big_n - 1);
    assert(others.len() > 0);
    let o = others.choose();
    assert(others.contains(o));
    lemma_step_toward(ready, n, c, o);
    let s = rr_next(ready, n, c);
    // everything ready but `s` and `c` lies between `s` and `c`
    let b = between(ready, n, s, c);
    lemma_first_ready(ready, n, c, 1);
    let k0 = first_ready_from(ready, n, c, 1)->Some_0;
    assert forall|i: int| b.contains(i) <==> ready.remove(s).remove(c).contains(i) by {
        if ready.contains(i) && i != s && i != c {
            let ki = rr_offset(n, c, i);
            assert(rr_index(n, c, ki) == i);
            if ki < k0 {
                assert(!ready.contains(rr_index(n, c, ki)));
            }
        }
    }
    assert(b =~= ready.remove(s).remove(c));
    assert(b.len() == big_n - 2);
    lemma_reach(ready, n, s, c);
    lemma_iter_shift(ready, n, c, (big_n - 1) as nat);
    assert(rr_iter(ready, n, c, big_n) == c);
    if t == c {
        assert(rr_iter(ready, n, c, big_n) == t);
    } else {
        let bt = between(ready, n, c, t);
        assert(bt.subset_of(ready.remove(c).remove(t)));
        lemma_len_subset(bt, ready.remove(c).remove(t));
        lemma_reach(ready, n, c, t);
        assert(rr_iter(ready, n, c, bt.len() + 1) == t);
    }
    assert forall|j: nat| #[trigger] rr_iter(ready, n, c, j + big_n) == rr_iter(ready, n, c, j) by {
        lemma_iter_add(ready, n, c, big_n, j);
    }
}

proof fn lemma_iter_add(ready: Set<int>, n: int, c: int, a: nat, j: nat)
    ensures
        rr_iter(ready, n, c, j + a) == rr_iter(ready, n, rr_iter(ready, n, c, a), j),
    decreases j,
{
    if j > 0 {
        lemma_iter_add(ready, n, c, a, (j - 1) as nat);
        assert((j + a - 1) as nat == (j - 1) as nat + a);
    }
}

proof fn lemma_candidates_are_ready(tasks: Seq<Task>, cur: int, k: int)
    requires
        is_steady(tasks, cur),
        1 <= k,
    ensures
        first_candidate_from(tasks, cur, k) == first_ready_from(
            ready_set(tasks),
            tasks.len() as int,
            cur,
            k,
        ),
    decreases tasks.len() - k,
{
    if k < tasks.len() {
        let i = rr_index(tasks.len() as int, cur, k);
        assert(is_candidate(tasks, cur, i) == ready_set(tasks).contains(i));
        lemma_candidates_are_ready(tasks, cur, k + 1);
    }
}

/// From a steady state with at least two ready kernel threads, a scheduling
/// decision picks `rr_next` of the ready set, and leaves a steady state with
/// the same ready set. So the scheduler's successive picks are the iterates
/// `rr_iter` of `lemma_round_robin_period`, and every one of `N` ready threads
/// runs within `N` decisions, in an order that repeats with period `N`.
pub proof fn lemma_decision_is_round_robin(
    tasks: Seq<Task>,
    cur: int,
    cpu: Cpu,
    new: TaskList,
    new_cpu: Cpu,
)
    requires
        is_steady(tasks, cur),
        ready_set(tasks).len() >= 2,
        dispatched(tasks, cur, cpu, new, new_cpu),
    ensures
        ready_set(tasks).finite(),
        new.current == rr_next(ready_set(tasks), tasks.len() as int, cur),
        new.current != cur,
        is_steady(new.tasks@, new.current as int),
        ready_set(new.tasks@) == ready_set(tasks),
{
    let n = tasks.len() as int;
    let ready = ready_set(tasks);
    lemma_int_range(0, n);
    assert(ready.subset_of(set_int_range(0, n)));
    lemma_len_subset(ready, set_int_range(0, n));
    lemma_candidates_are_ready(tasks, cur, 1);
    lemma_first_ready(ready, n, cur, 1);
    let others = ready.remove(cur);
    assert(others.len() > 0);
    let o = others.choose();
    assert(others.contains(o));
    let ko = rr_offset(n, cur, o);
    assert(rr_index(n, cur, ko) == o);
    let k0 = first_ready_from(ready, n, cur, 1)->Some_0;
    let next = rr_index(n, cur, k0);
    assert(next_task(tasks, cur) == next);
    assert(next != cur);
    let new_tasks = new.tasks@;
    assert forall|i: int| ready_set(new_tasks).contains(i) == ready.contains(i) by {}
    assert(ready_set(new_tasks) =~= ready);
}

/// A single ready kernel thread `t` and the idle task take turns: a decision
/// made while `t` runs goes to the idle task, one made while the idle task
/// runs goes to `t`, and the ready set stays `{t}`.
pub proof fn lemma_single_thread_alternates_with_idle(
    tasks: Seq<Task>,
    cur: int,
    t: int,
    cpu: Cpu,
    new: TaskList,
    new_cpu: Cpu,
)
    requires
        0 <= cur < tasks.len(),
        cur == 0 || cur == t,
        tasks[cur].state == TaskState::Running,
        forall|i: int| 0 <= i < tasks.len() && i != cur ==> (#[trigger] tasks[i]).state != TaskState::Running,
        tasks[0].is_selectable(),
        ready_set(tasks) == set![t],
        dispatched(tasks, cur, cpu, new, new_cpu),
    ensures
        cur == t ==> new.current == 0,
        cur == 0 ==> new.current == t,
        ready_set(new.tasks@) == ready_set(tasks),
        new.tasks@[new.current as int].state == TaskState::Running,
{
    let n = tasks.len() as int;
    assert(ready_set(tasks).contains(t));
    lemma_first_candidate(tasks, cur, 1);
    if cur == 0 {
        assert(rr_index(n, 0, t) == t);
        assert(is_candidate(tasks, cur, t));
    }
    match first_candidate_from(tasks, cur, 1) {
        Some(k0) => {
            assert(ready_set(tasks).contains(rr_index(n, cur, k0)));
        },
        None => {},
    }
    assert forall|i: int| ready_set(new.tasks@).contains(i) == ready_set(tasks).contains(i) by {}
    assert(ready_set(new.tasks@) =~= ready_set(tasks));
}

} // verus!
