//! The order in which a plan's tasks run, and its total duration.
//!
//! A task runs once every prerequisite has run. Tasks are taken in rounds:
//! each round goes through the tasks not yet run, in the plan's order, and
//! runs each one whose prerequisites have all run (in an earlier round or
//! earlier in the same round). A round that runs nothing means that no order
//! can satisfy the prerequisites.
use vstd::prelude::*;
use crate::error::GvmError;
use crate::progress::planner::{id_texts, task_ids};
use crate::progress::tasks::{DetailedInstallPlan, InstallTask};
use crate::progress::types::TaskId;
use crate::text::str_equal;

verus! {

broadcast use vstd::seq_lib::group_to_multiset_ensures;

/// The total estimated duration of a list of tasks, in seconds.
pub open spec fn total_secs(tasks: Seq<InstallTask>) -> nat
    decreases tasks.len(),
{
    if tasks.len() == 0 {
        0
    } else {
        total_secs(tasks.drop_last()) + tasks.last().estimated_duration_secs as nat
    }
}

/// `i` is the position of the first task with identifier `id`.
pub open spec fn is_first_with_id(tasks: Seq<InstallTask>, id: Seq<char>, i: int) -> bool {
    &&& 0 <= i < tasks.len()
    &&& tasks[i].id.0@ == id
    &&& forall|j: int| 0 <= j < i ==> tasks[j].id.0@ != id
}

/// The position of the first task with identifier `id`.
pub open spec fn first_with_id(tasks: Seq<InstallTask>, id: Seq<char>) -> int {
    choose|i: int| is_first_with_id(tasks, id, i)
}

/// The prerequisites of the task that identifier `id` names: the first task
/// with that identifier.
pub open spec fn prerequisites_of(tasks: Seq<InstallTask>, id: Seq<char>) -> Seq<Seq<char>> {
    id_texts(tasks[first_with_id(tasks, id)].prerequisites@)
}

/// Every task in `order` comes after all of its prerequisites.
pub open spec fn runs_after_prerequisites(tasks: Seq<InstallTask>, order: Seq<Seq<char>>) -> bool {
    forall|k: int, p: Seq<char>|
        0 <= k < order.len() && #[trigger] prerequisites_of(tasks, order[k]).contains(p)
            ==> order.subrange(0, k).contains(p)
}

/// `order` lists the tasks' identifiers, each once per task, so that every
/// task comes after its prerequisites.
pub open spec fn is_execution_order(tasks: Seq<InstallTask>, order: Seq<Seq<char>>) -> bool {
    &&& order.to_multiset() == task_ids(tasks).to_multiset()
    &&& runs_after_prerequisites(tasks, order)
}

/// The identifiers of the tasks at the given positions.
pub open spec fn ids_at(tasks: Seq<InstallTask>, positions: Seq<usize>) -> Seq<Seq<char>> {
    positions.map_values(|i: usize| tasks[i as int].id.0@)
}

/// Whether every prerequisite is among `done`.
pub open spec fn all_done(prerequisites: Seq<Seq<char>>, done: Seq<Seq<char>>) -> bool {
    forall|p: Seq<char>| prerequisites.contains(p) ==> done.contains(p)
}

/// The first task with an identifier is the one that `first_with_id` names.
proof fn lemma_first_unique(tasks: Seq<InstallTask>, id: Seq<char>, i: int)
    requires
        is_first_with_id(tasks, id, i),
    ensures
        first_with_id(tasks, id) == i,
{
    let g = first_with_id(tasks, id);
    assert(is_first_with_id(tasks, id, g));
    if g < i {
        assert(tasks[g].id.0@ != id);
    } else if g > i {
        assert(tasks[i].id.0@ != id);
    }
}

/// A task with identifier `id` at position `i` means there is a first one.
proof fn lemma_first_exists(tasks: Seq<InstallTask>, id: Seq<char>, i: int)
    requires
        0 <= i < tasks.len(),
        tasks[i].id.0@ == id,
    ensures
        is_first_with_id(tasks, id, first_with_id(tasks, id)),
    decreases i,
{
    if exists|j: int| 0 <= j < i && tasks[j].id.0@ == id {
        let j = choose|j: int| 0 <= j < i && tasks[j].id.0@ == id;
        lemma_first_exists(tasks, id, j);
    } else {
        assert(is_first_with_id(tasks, id, i));
    }
}

/// When a round runs nothing, no order satisfies the prerequisites: the
/// tasks not yet run all wait on something that has not run, so none of
/// them can come first among the tasks not yet run in any order.
proof fn lemma_stuck_means_no_order(
    tasks: Seq<InstallTask>,
    done: Seq<Seq<char>>,
    remaining: Seq<usize>,
)
    requires
        remaining.len() > 0,
        forall|k: int| 0 <= k < remaining.len() ==> (#[trigger] remaining[k]) < tasks.len(),
        done.to_multiset().add(ids_at(tasks, remaining).to_multiset()) == task_ids(tasks).to_multiset(),
        runs_after_prerequisites(tasks, done),
        forall|k: int| 0 <= k < remaining.len() ==>
            !all_done(prerequisites_of(tasks, tasks[#[trigger] remaining[k] as int].id.0@), done),
        forall|i: int| 0 <= i < tasks.len() ==> remaining.contains(i as usize) || done.contains(tasks[i].id.0@),
    ensures
        forall|order: Seq<Seq<char>>| !is_execution_order(tasks, order),
{
    // a task still waiting has an identifier that has not run
    assert forall|k: int| 0 <= k < remaining.len() implies !done.contains(tasks[#[trigger] remaining[k] as int].id.0@) by {
        let x = tasks[remaining[k] as int].id.0@;
        if done.contains(x) {
            let m = choose|m: int| 0 <= m < done.len() && done[m] == x;
            assert forall|p: Seq<char>| prerequisites_of(tasks, x).contains(p) implies done.contains(p) by {
                assert(prerequisites_of(tasks, done[m]).contains(p));
                let q = choose|q: int| 0 <= q < m && #[trigger] done.subrange(0, m)[q] == p;
                assert(done[q] == p);
            }
        }
    }
    assert forall|order: Seq<Seq<char>>| !is_execution_order(tasks, order) by {
        if is_execution_order(tasks, order) {
            lemma_order_within_done(tasks, done, remaining, order, order.len() as int);
            let x = tasks[remaining[0] as int].id.0@;
            assert(ids_at(tasks, remaining)[0] == x);
            assert(ids_at(tasks, remaining).to_multiset().count(x) > 0);
            assert(task_ids(tasks).to_multiset().count(x) > 0);
            assert(order.to_multiset().count(x) > 0);
            assert(order.contains(x));
            let k = choose|k: int| 0 <= k < order.len() && order[k] == x;
            assert(done.contains(order[k]));
        }
    }
}

/// In an order satisfying the prerequisites, the first `n` entries have all
/// run already (given the situation of `lemma_stuck_means_no_order`).
proof fn lemma_order_within_done(
    tasks: Seq<InstallTask>,
    done: Seq<Seq<char>>,
    remaining: Seq<usize>,
    order: Seq<Seq<char>>,
    n: int,
)
    requires
        0 <= n <= order.len(),
        is_execution_order(tasks, order),
        done.to_multiset().add(ids_at(tasks, remaining).to_multiset()) == task_ids(tasks).to_multiset(),
        forall|k: int| 0 <= k < remaining.len() ==>
            !all_done(prerequisites_of(tasks, tasks[#[trigger] remaining[k] as int].id.0@), done),
        forall|i: int| 0 <= i < tasks.len() ==> remaining.contains(i as usize) || done.contains(tasks[i].id.0@),
    ensures
        forall|k: int| 0 <= k < n ==> done.contains(#[trigger] order[k]),
    decreases n,
{
    if n > 0 {
        lemma_order_within_done(tasks, done, remaining, order, n - 1);
        let x = order[n - 1];
        assert(order.contains(x));
        assert(order.to_multiset().count(x) > 0);
        assert(task_ids(tasks).to_multiset().count(x) > 0);
        assert(task_ids(tasks).contains(x));
        let i = choose|i: int| 0 <= i < task_ids(tasks).len() && task_ids(tasks)[i] == x;
        assert(tasks[i].id.0@ == x);
        lemma_first_exists(tasks, x, i);
        let f = first_with_id(tasks, x);
        assert(tasks[f].id.0@ == x);
        if !done.contains(x) {
            assert(remaining.contains(f as usize));
            let k = choose|k: int| 0 <= k < remaining.len() && remaining[k] == f as usize;
            assert(!all_done(prerequisites_of(tasks, tasks[remaining[k] as int].id.0@), done));
            let p = choose|p: Seq<char>| prerequisites_of(tasks, x).contains(p) && !done.contains(p);
            assert(prerequisites_of(tasks, order[n - 1]).contains(p));
            assert(order.subrange(0, n - 1).contains(p));
            let q = choose|q: int| 0 <= q < n - 1 && #[trigger] order.subrange(0, n - 1)[q] == p;
            assert(order[q] == p);
        }
    }
}

/// Tasks with distinct identifiers, each listed after its prerequisites,
/// can run in the order listed.
pub proof fn lemma_listed_order_runs(tasks: Seq<InstallTask>)
    requires
        forall|i: int, j: int| 0 <= i < j < tasks.len() ==> tasks[i].id.0@ != tasks[j].id.0@,
        forall|k: int, p: Seq<char>| 0 <= k < tasks.len() && #[trigger] id_texts(tasks[k].prerequisites@).contains(p)
            ==> task_ids(tasks).subrange(0, k).contains(p),
    ensures
        is_execution_order(tasks, task_ids(tasks)),
{
    let ids = task_ids(tasks);
    assert forall|k: int, p: Seq<char>| 0 <= k < ids.len() && #[trigger] prerequisites_of(tasks, ids[k]).contains(p)
        implies ids.subrange(0, k).contains(p) by {
        assert(is_first_with_id(tasks, ids[k], k));
        lemma_first_unique(tasks, ids[k], k);
        assert(id_texts(tasks[k].prerequisites@).contains(p));
    }
}

/// Moving one item from one side of a balance of multisets to the other.
proof fn lemma_move_item(
    a: vstd::multiset::Multiset<Seq<char>>,
    b: vstd::multiset::Multiset<Seq<char>>,
    c: vstd::multiset::Multiset<Seq<char>>,
    d: vstd::multiset::Multiset<Seq<char>>,
    x: Seq<char>,
)
    requires
        a.add(b) == c.add(d),
    ensures
        a.insert(x).add(b) == c.add(d.insert(x)),
        a.add(b.insert(x)) == c.add(d.insert(x)),
{
    broadcast use vstd::multiset::group_multiset_axioms;
    assert forall|y: Seq<char>| #[trigger] a.insert(x).add(b).count(y) == c.add(d.insert(x)).count(y)
        && a.add(b.insert(x)).count(y) == c.add(d.insert(x)).count(y) by {
        assert(a.add(b).count(y) == c.add(d).count(y));
        assert(a.add(b).count(y) == a.count(y) + b.count(y));
        assert(c.add(d).count(y) == c.count(y) + d.count(y));
        assert(vstd::multiset::Multiset::singleton(x).count(y) == (if x == y { 1nat } else { 0nat }));
        assert(a.insert(x).count(y) == a.count(y) + (if x == y { 1nat } else { 0nat }));
        assert(d.insert(x).count(y) == d.count(y) + (if x == y { 1nat } else { 0nat }));
    }
    assert(a.insert(x).add(b) =~= c.add(d.insert(x)));
    assert(a.add(b.insert(x)) =~= c.add(d.insert(x)));
}

/// Whether the identifiers hold `id`.
fn contains_id(ids: &Vec<TaskId>, id: &str) -> (res: bool)
    ensures
        res == id_texts(ids@).contains(id@),
{
    let mut i: usize = 0;
    while i < ids.len()
        invariant
            i <= ids@.len(),
            forall|k: int| 0 <= k < i ==> id_texts(ids@)[k] != id@,
        decreases ids@.len() - i,
    {
        if str_equal(ids[i].0.as_str(), id) {
            assert(id_texts(ids@)[i as int] == id@);
            return true;
        }
        i = i + 1;
    }
    false
}

/// Whether every prerequisite is among `done`.
fn all_contained(prerequisites: &Vec<TaskId>, done: &Vec<TaskId>) -> (res: bool)
    ensures
        res == all_done(id_texts(prerequisites@), id_texts(done@)),
{
    let mut i: usize = 0;
    while i < prerequisites.len()
        invariant
            i <= prerequisites@.len(),
            forall|k: int| 0 <= k < i ==> id_texts(done@).contains(#[trigger] id_texts(prerequisites@)[k]),
        decreases prerequisites@.len() - i,
    {
        if !contains_id(done, prerequisites[i].0.as_str()) {
            assert(id_texts(prerequisites@).contains(id_texts(prerequisites@)[i as int]));
            return false;
        }
        i = i + 1;
    }
    assert forall|p: Seq<char>| id_texts(prerequisites@).contains(p) implies id_texts(done@).contains(p) by {
        let k = choose|k: int| 0 <= k < id_texts(prerequisites@).len() && id_texts(prerequisites@)[k] == p;
        assert(id_texts(done@).contains(id_texts(prerequisites@)[k]));
    }
    true
}

/// The position of the first task with the identifier, which some task has.
fn first_position(tasks: &Vec<InstallTask>, id: &str, Ghost(at): Ghost<int>) -> (res: usize)
    requires
        0 <= at < tasks@.len(),
        tasks@[at].id.0@ == id@,
    ensures
        is_first_with_id(tasks@, id@, res as int),
        first_with_id(tasks@, id@) == res,
{
    let mut i: usize = 0;
    while i < tasks.len()
        invariant
            i <= tasks@.len(),
            i <= at,
            0 <= at < tasks@.len(),
            tasks@[at].id.0@ == id@,
            forall|j: int| 0 <= j < i ==> tasks@[j].id.0@ != id@,
        decreases tasks@.len() - i,
    {
        if str_equal(tasks[i].id.0.as_str(), id) {
            proof {
                lemma_first_unique(tasks@, id@, i as int);
            }
            return i;
        }
        i = i + 1;
    }
    i
}

/// The total of the estimates of the first tasks is at most the total.
proof fn lemma_total_secs_prefix(tasks: Seq<InstallTask>, i: int)
    requires
        0 <= i <= tasks.len(),
    ensures
        total_secs(tasks.subrange(0, i)) <= total_secs(tasks),
    decreases tasks.len(),
{
    if i == tasks.len() {
        assert(tasks.subrange(0, i) =~= tasks);
    } else {
        lemma_total_secs_prefix(tasks.drop_last(), i);
        assert(tasks.drop_last().subrange(0, i) =~= tasks.subrange(0, i));
    }
}

/// The sum of the tasks' estimates.
pub(crate) fn sum_durations(tasks: &Vec<InstallTask>) -> (res: u64)
    requires
        total_secs(tasks@) <= u64::MAX,
    ensures
        res == total_secs(tasks@),
{
    let mut total: u64 = 0;
    let mut i: usize = 0;
    while i < tasks.len()
        invariant
            total_secs(tasks@) <= u64::MAX,
            i <= tasks@.len(),
            total == total_secs(tasks@.subrange(0, i as int)),
        decreases tasks@.len() - i,
    {
        proof {
            assert(tasks@.subrange(0, i + 1).drop_last() =~= tasks@.subrange(0, i as int));
            lemma_total_secs_prefix(tasks@, i + 1);
        }
        total = total + tasks[i].estimated_duration_secs;
        i = i + 1;
    }
    assert(tasks@.subrange(0, i as int) =~= tasks@);
    total
}

impl DetailedInstallPlan {
    /// The tasks' identifiers in the order the tasks run, taken in rounds as
    /// the module describes. Fails exactly when no order lets every task
    /// follow its prerequisites; a plan listed in such an order runs in the
    /// order it lists.
    pub fn execution_order(&self) -> (res: Result<Vec<TaskId>, GvmError>)
        ensures
            res matches Ok(order) ==> is_execution_order(self.tasks@, id_texts(order@)),
            res is Err ==> (res matches Err(GvmError::CircularDependency)
                && forall|order: Seq<Seq<char>>| !is_execution_order(self.tasks@, order)),
            is_execution_order(self.tasks@, task_ids(self.tasks@)) ==> (res matches Ok(order)
                && id_texts(order@) == task_ids(self.tasks@)),
    {
        let tasks = &self.tasks;
        let n = tasks.len();
        let ghost all = task_ids(tasks@);
        let ghost listed = is_execution_order(tasks@, all);
        let mut ordered: Vec<TaskId> = Vec::new();
        let mut remaining: Vec<usize> = Vec::new();
        let mut i: usize = 0;
        while i < n
            invariant
                n == tasks@.len(),
                i <= n,
                remaining@.len() == i,
                forall|k: int| 0 <= k < i ==> remaining@[k] == k,
            decreases n - i,
        {
            remaining.push(i);
            i = i + 1;
        }
        proof {
            assert(ids_at(tasks@, remaining@) =~= all);
            assert(id_texts(ordered@) =~= Seq::<Seq<char>>::empty());
            assert(id_texts(ordered@).to_multiset().add(all.to_multiset()) =~= all.to_multiset());
            assert forall|i: int| 0 <= i < n implies remaining@.contains(i as usize) || id_texts(ordered@).contains(tasks@[i].id.0@) by {
                assert(remaining@[i] == i as usize);
            }
        }
        let mut first_round = true;
        while remaining.len() > 0
            invariant
                tasks@ == self.tasks@,
                n == tasks@.len(),
                all == task_ids(tasks@),
                listed == is_execution_order(tasks@, all),
                forall|k: int| 0 <= k < remaining@.len() ==> (#[trigger] remaining@[k]) < n,
                id_texts(ordered@).to_multiset().add(ids_at(tasks@, remaining@).to_multiset()) == all.to_multiset(),
                runs_after_prerequisites(tasks@, id_texts(ordered@)),
                forall|i: int| 0 <= i < n ==> remaining@.contains(i as usize) || id_texts(ordered@).contains(tasks@[i].id.0@),
                first_round ==> ordered@.len() == 0 && remaining@.len() == n
                    && forall|k: int| 0 <= k < n ==> remaining@[k] == k,
                !first_round ==> !listed || (remaining@.len() == 0 && id_texts(ordered@) == all),
            decreases remaining@.len(),
        {
            let ghost done_before = id_texts(ordered@);
            let ghost was_first = first_round;
            let mut progress = false;
            let mut kept: Vec<usize> = Vec::new();
            let mut j: usize = 0;
            proof {
                assert(remaining@.subrange(0, remaining@.len() as int) =~= remaining@);
                assert(remaining@.subrange(0, 0) =~= Seq::<usize>::empty());
                assert(ids_at(tasks@, kept@) =~= Seq::<Seq<char>>::empty());
                assert(ids_at(tasks@, remaining@.subrange(0, 0)) =~= Seq::<Seq<char>>::empty());
                broadcast use vstd::multiset::group_multiset_axioms;
                assert(done_before.to_multiset().add(Seq::<Seq<char>>::empty().to_multiset()) =~= done_before.to_multiset());
            }
            while j < remaining.len()
                invariant
                    n == tasks@.len(),
                    all == task_ids(tasks@),
                    listed == is_execution_order(tasks@, all),
                    j <= remaining@.len(),
                    forall|k: int| 0 <= k < remaining@.len() ==> (#[trigger] remaining@[k]) < n,
                    forall|k: int| 0 <= k < kept@.len() ==> (#[trigger] kept@[k]) < n,
                    id_texts(ordered@).to_multiset().add(ids_at(tasks@, kept@).to_multiset())
                        == done_before.to_multiset().add(ids_at(tasks@, remaining@.subrange(0, j as int)).to_multiset()),
                    runs_after_prerequisites(tasks@, id_texts(ordered@)),
                    forall|i: int| 0 <= i < n ==> remaining@.subrange(j as int, remaining@.len() as int).contains(i as usize)
                        || kept@.contains(i as usize) || id_texts(ordered@).contains(tasks@[i].id.0@),
                    forall|i: int| 0 <= i < n ==> remaining@.contains(i as usize) || done_before.contains(tasks@[i].id.0@),
                    forall|i: int| 0 <= i < n && done_before.contains(tasks@[i].id.0@) ==> id_texts(ordered@).contains(tasks@[i].id.0@),
                    kept@.len() + (if progress { 1int } else { 0int }) <= j,
                    !progress ==> id_texts(ordered@) == done_before && kept@ == remaining@.subrange(0, j as int),
                    !progress ==> forall|k: int| 0 <= k < j ==> !all_done(
                        prerequisites_of(tasks@, tasks@[#[trigger] remaining@[k] as int].id.0@), done_before),
                    was_first && listed ==> kept@.len() == 0 && id_texts(ordered@) == all.subrange(0, j as int)
                        && remaining@.len() == n && forall|k: int| 0 <= k < n ==> remaining@[k] == k,
                decreases remaining@.len() - j,
            {
                let idx = remaining[j];
                let f = first_position(tasks, tasks[idx].id.0.as_str(), Ghost(idx as int));
                let ghost before_ids = id_texts(ordered@);
                let ghost before_kept = kept@;
                proof {
                    assert(remaining@.subrange(0, j + 1) =~= remaining@.subrange(0, j as int).push(idx));
                    assert(ids_at(tasks@, remaining@.subrange(0, j + 1)) =~= ids_at(tasks@, remaining@.subrange(0, j as int)).push(tasks@[idx as int].id.0@));
                    assert(remaining@.subrange(j as int, remaining@.len() as int) =~= remaining@.subrange(j + 1, remaining@.len() as int).insert(0, idx));
                }
                if all_contained(&tasks[f].prerequisites, &ordered) {
                    ordered.push(TaskId(tasks[idx].id.0.clone()));
                    progress = true;
                    proof {
                        let x = tasks@[idx as int].id.0@;
                        assert(id_texts(ordered@) =~= before_ids.push(x));
                        lemma_move_item(before_ids.to_multiset(), ids_at(tasks@, kept@).to_multiset(), done_before.to_multiset(),
                            ids_at(tasks@, remaining@.subrange(0, j as int)).to_multiset(), x);
                        assert forall|k: int, p: Seq<char>| 0 <= k < id_texts(ordered@).len()
                            && #[trigger] prerequisites_of(tasks@, id_texts(ordered@)[k]).contains(p)
                            implies id_texts(ordered@).subrange(0, k).contains(p) by {
                            if k < before_ids.len() {
                                assert(prerequisites_of(tasks@, before_ids[k]).contains(p));
                                let q = choose|q: int| 0 <= q < k && #[trigger] before_ids.subrange(0, k)[q] == p;
                                assert(id_texts(ordered@).subrange(0, k)[q] == p);
                            } else {
                                assert(id_texts(ordered@).subrange(0, k) =~= before_ids);
                            }
                        }
                        assert forall|i: int| 0 <= i < n && done_before.contains(tasks@[i].id.0@)
                            implies id_texts(ordered@).contains(tasks@[i].id.0@) by {
                            let q = choose|q: int| 0 <= q < before_ids.len() && before_ids[q] == tasks@[i].id.0@;
                            assert(id_texts(ordered@)[q] == tasks@[i].id.0@);
                        }
                        assert(id_texts(ordered@)[before_ids.len() as int] == x);
                        if was_first && listed {
                            assert(all.subrange(0, j + 1) =~= all.subrange(0, j as int).push(x));
                        }
                    }
                } else {
                    kept.push(idx);
                    proof {
                        assert(ids_at(tasks@, kept@) =~= ids_at(tasks@, before_kept).push(tasks@[idx as int].id.0@));
                        lemma_move_item(before_ids.to_multiset(), ids_at(tasks@, before_kept).to_multiset(), done_before.to_multiset(),
                            ids_at(tasks@, remaining@.subrange(0, j as int)).to_multiset(), tasks@[idx as int].id.0@);
                        assert(kept@[kept@.len() - 1] == idx);
                        if !progress {
                            assert(kept@ =~= remaining@.subrange(0, j + 1));
                        }
                        if was_first && listed {
                            // the listed order lets the task at position j run now
                            let x = all[j as int];
                            assert(x == tasks@[idx as int].id.0@);
                            assert forall|p: Seq<char>| prerequisites_of(tasks@, x).contains(p)
                                implies before_ids.contains(p) by {
                                assert(prerequisites_of(tasks@, all[j as int]).contains(p));
                            }
                            assert(false);
                        }
                    }
                }
                proof {
                    assert forall|i: int| 0 <= i < n implies remaining@.subrange(j + 1, remaining@.len() as int).contains(i as usize)
                        || kept@.contains(i as usize) || id_texts(ordered@).contains(tasks@[i].id.0@) by {
                        if remaining@.subrange(j as int, remaining@.len() as int).contains(i as usize)
                            && !remaining@.subrange(j + 1, remaining@.len() as int).contains(i as usize) {
                            assert(i as usize == idx);
                            if kept@.len() > before_kept.len() {
                                assert(kept@[kept@.len() - 1] == idx);
                            } else {
                                assert(id_texts(ordered@)[id_texts(ordered@).len() - 1] == tasks@[i].id.0@);
                            }
                        } else if kept@.len() > before_kept.len() && before_kept.contains(i as usize) {
                            let q = choose|q: int| 0 <= q < before_kept.len() && before_kept[q] == i as usize;
                            assert(kept@[q] == i as usize);
                        } else if id_texts(ordered@).len() > before_ids.len() && before_ids.contains(tasks@[i].id.0@) {
                            let q = choose|q: int| 0 <= q < before_ids.len() && before_ids[q] == tasks@[i].id.0@;
                            assert(id_texts(ordered@)[q] == tasks@[i].id.0@);
                        }
                    }
                }
                j = j + 1;
            }
            proof {
                assert(remaining@.subrange(0, j as int) =~= remaining@);
                assert(remaining@.subrange(j as int, remaining@.len() as int) =~= Seq::<usize>::empty());
            }
            if !progress {
                proof {
                    assert(kept@ =~= remaining@);
                    assert(remaining@.len() > 0);
                    assert(forall|k: int| 0 <= k < remaining@.len() ==> (#[trigger] remaining@[k]) < tasks@.len());
                    assert(done_before.to_multiset().add(ids_at(tasks@, remaining@).to_multiset()) == task_ids(tasks@).to_multiset());
                    assert(runs_after_prerequisites(tasks@, done_before));
                    assert(forall|k: int| 0 <= k < remaining@.len() ==>
                        !all_done(prerequisites_of(tasks@, tasks@[#[trigger] remaining@[k] as int].id.0@), done_before));
                    assert(forall|i: int| 0 <= i < tasks@.len() ==> remaining@.contains(i as usize) || done_before.contains(tasks@[i].id.0@));
                    lemma_stuck_means_no_order(tasks@, done_before, remaining@);

                }
                return Err(GvmError::CircularDependency);
            }
            proof {
                if was_first && listed {
                    assert(all.subrange(0, n as int) =~= all);
                }
            }
            remaining = kept;
            first_round = false;
        }
        proof {
            assert(ids_at(tasks@, remaining@) =~= Seq::<Seq<char>>::empty());
            assert(id_texts(ordered@).to_multiset() =~= all.to_multiset());
            if listed && first_round {
                assert(id_texts(ordered@) =~= all);
            }
        }
        Ok(ordered)
    }

    /// The total estimated duration of the plan's tasks, in seconds.
    pub fn total_estimated_duration(&self) -> (res: u64)
        requires
            total_secs(self.tasks@) <= u64::MAX,
        ensures
            res == total_secs(self.tasks@),
    {
        sum_durations(&self.tasks)
    }
}

} // verus!
