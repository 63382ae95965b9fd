use vstd::prelude::*;

use crate::store::{Record, Store};
use crate::task::Task;

verus! {

/// Why a duration could not be computed.
#[derive(Clone, Copy, PartialEq, Eq, Structural, Debug)]
pub enum DurationError {
    /// Following parent links from the task leads back to a task already on the path.
    Cycle,
    /// A running total left the range of `i64`.
    Overflow,
}

/// Whether `x` lies in the range of `i64`.
pub open spec fn fits_i64(x: int) -> bool {
    i64::MIN <= x <= i64::MAX
}

/// Whether `r` is a completed record of the task `id`.
pub open spec fn completed_of(r: Record, id: i64) -> bool {
    r.task == id && !r.incomplete
}

/// The sum of the durations of the completed records of task `id` among the first `k` records.
pub open spec fn own_total(recs: Seq<Record>, id: i64, k: nat) -> int
    decreases k,
{
    if k == 0 || k > recs.len() {
        0
    } else {
        own_total(recs, id, (k - 1) as nat) + if completed_of(recs[k - 1], id) {
            recs[k - 1].duration as int
        } else {
            0
        }
    }
}

/// The duration of task `id`, following child links at most `fuel` levels deep.
pub open spec fn subtree_total(recs: Seq<Record>, tasks: Seq<Task>, id: i64, fuel: nat) -> int
    decreases fuel, 0nat,
{
    if fuel == 0 {
        0
    } else {
        own_total(recs, id, recs.len()) + children_total(recs, tasks, id, tasks.len(), (fuel - 1) as nat)
    }
}

/// The sum of `subtree_total(child, fuel)` over the children of `id` among the first `k` tasks.
pub open spec fn children_total(recs: Seq<Record>, tasks: Seq<Task>, id: i64, k: nat, fuel: nat) -> int
    decreases fuel, k + 1,
{
    if k == 0 || k > tasks.len() {
        0
    } else {
        children_total(recs, tasks, id, (k - 1) as nat, fuel) + if tasks[k - 1].parent == id {
            subtree_total(recs, tasks, tasks[k - 1].id, fuel)
        } else {
            0
        }
    }
}

/// Whether a chain of `fuel` descendants starts at task `id`.
pub open spec fn deep(tasks: Seq<Task>, id: i64, fuel: nat) -> bool
    decreases fuel, 0nat,
{
    if fuel == 0 {
        true
    } else {
        deep_children(tasks, id, tasks.len(), (fuel - 1) as nat)
    }
}

/// Whether a chain of `fuel` descendants starts at a child of `id` among the first `k` tasks.
pub open spec fn deep_children(tasks: Seq<Task>, id: i64, k: nat, fuel: nat) -> bool
    decreases fuel, k + 1,
{
    if k == 0 || k > tasks.len() {
        false
    } else {
        deep_children(tasks, id, (k - 1) as nat, fuel) || (tasks[k - 1].parent == id && deep(
            tasks,
            tasks[k - 1].id,
            fuel,
        ))
    }
}

/// Whether a cycle of parent links is reachable from task `id`: a chain of
/// more descendants than there are tasks must visit some task twice.
pub open spec fn has_cycle(tasks: Seq<Task>, id: i64) -> bool {
    deep(tasks, id, tasks.len() + 1)
}

/// The duration of task `id`: its completed records plus the durations of its subtasks.
pub open spec fn total_duration(recs: Seq<Record>, tasks: Seq<Task>, id: i64) -> int {
    subtree_total(recs, tasks, id, tasks.len() + 1)
}

/// Whether every running total taken over the first `k` records of task `id` fits in `i64`.
pub open spec fn own_fits(recs: Seq<Record>, id: i64, k: nat) -> bool
    decreases k,
{
    if k == 0 || k > recs.len() {
        true
    } else {
        own_fits(recs, id, (k - 1) as nat) && fits_i64(own_total(recs, id, k))
    }
}

/// Whether every running total of the traversal of task `id` fits in `i64`.
pub open spec fn subtree_fits(recs: Seq<Record>, tasks: Seq<Task>, id: i64, fuel: nat) -> bool
    decreases fuel, 0nat,
{
    if fuel == 0 {
        true
    } else {
        own_fits(recs, id, recs.len()) && children_fit(recs, tasks, id, tasks.len(), (fuel - 1) as nat)
    }
}

/// Whether every running total over the children of `id` among the first `k`
/// tasks fits in `i64`, the own records of `id` counted first.
pub open spec fn children_fit(recs: Seq<Record>, tasks: Seq<Task>, id: i64, k: nat, fuel: nat) -> bool
    decreases fuel, k + 1,
{
    if k == 0 || k > tasks.len() {
        true
    } else {
        children_fit(recs, tasks, id, (k - 1) as nat, fuel) && (tasks[k - 1].parent == id ==> (
        subtree_fits(recs, tasks, tasks[k - 1].id, fuel) && fits_i64(
            own_total(recs, id, recs.len()) + children_total(recs, tasks, id, k, fuel),
        )))
    }
}

proof fn lemma_own_fits_prefix(recs: Seq<Record>, id: i64, j: nat, k: nat)
    requires
        j <= k <= recs.len(),
        own_fits(recs, id, k),
    ensures
        own_fits(recs, id, j),
    decreases k,
{
    if j < k {
        lemma_own_fits_prefix(recs, id, j, (k - 1) as nat);
    }
}

proof fn lemma_children_fit_prefix(recs: Seq<Record>, tasks: Seq<Task>, id: i64, j: nat, k: nat, fuel: nat)
    requires
        j <= k <= tasks.len(),
        children_fit(recs, tasks, id, k, fuel),
    ensures
        children_fit(recs, tasks, id, j, fuel),
    decreases k,
{
    if j < k {
        lemma_children_fit_prefix(recs, tasks, id, j, (k - 1) as nat, fuel);
    }
}

/// The sum of `total_duration(child)` over the children of `id` among the first `k` tasks.
pub open spec fn children_durations(recs: Seq<Record>, tasks: Seq<Task>, id: i64, k: nat) -> int
    decreases k,
{
    if k == 0 || k > tasks.len() {
        0
    } else {
        children_durations(recs, tasks, id, (k - 1) as nat) + if tasks[k - 1].parent == id {
            total_duration(recs, tasks, tasks[k - 1].id)
        } else {
            0
        }
    }
}

proof fn lemma_subtree_stable(recs: Seq<Record>, tasks: Seq<Task>, id: i64, fuel: nat)
    requires
        !deep(tasks, id, fuel),
    ensures
        subtree_total(recs, tasks, id, fuel) == subtree_total(recs, tasks, id, fuel + 1),
    decreases fuel, 0nat,
{
    if fuel > 0 {
        lemma_children_stable(recs, tasks, id, tasks.len(), (fuel - 1) as nat);
    }
}

proof fn lemma_children_stable(recs: Seq<Record>, tasks: Seq<Task>, id: i64, k: nat, fuel: nat)
    requires
        !deep_children(tasks, id, k, fuel),
    ensures
        children_total(recs, tasks, id, k, fuel) == children_total(recs, tasks, id, k, fuel + 1),
    decreases fuel, k + 1,
{
    if k > 0 && k <= tasks.len() {
        lemma_children_stable(recs, tasks, id, (k - 1) as nat, fuel);
        if tasks[k - 1].parent == id {
            lemma_subtree_stable(recs, tasks, tasks[k - 1].id, fuel);
        }
    }
}

proof fn lemma_children_are_durations(recs: Seq<Record>, tasks: Seq<Task>, id: i64, k: nat)
    requires
        !deep_children(tasks, id, k, tasks.len()),
    ensures
        children_total(recs, tasks, id, k, tasks.len()) == children_durations(recs, tasks, id, k),
    decreases k,
{
    if k > 0 && k <= tasks.len() {
        lemma_children_are_durations(recs, tasks, id, (k - 1) as nat);
        if tasks[k - 1].parent == id {
            lemma_subtree_stable(recs, tasks, tasks[k - 1].id, tasks.len());
        }
    }
}

/// Where no cycle is reachable from task `id`, its duration is the sum of the
/// durations of its own completed records plus the durations of its direct children.
pub proof fn lemma_duration_sums_children(recs: Seq<Record>, tasks: Seq<Task>, id: i64)
    requires
        !has_cycle(tasks, id),
    ensures
        total_duration(recs, tasks, id) == own_total(recs, id, recs.len()) + children_durations(
            recs,
            tasks,
            id,
            tasks.len(),
        ),
{
    lemma_children_are_durations(recs, tasks, id, tasks.len());
}

proof fn lemma_no_own_records(recs: Seq<Record>, id: i64, k: nat)
    requires
        forall|i: int| 0 <= i < recs.len() ==> recs[i].task != id,
    ensures
        own_total(recs, id, k) == 0,
        own_fits(recs, id, k),
    decreases k,
{
    if k > 0 {
        lemma_no_own_records(recs, id, (k - 1) as nat);
    }
}

proof fn lemma_no_children(recs: Seq<Record>, tasks: Seq<Task>, id: i64, k: nat, fuel: nat)
    requires
        forall|j: int| 0 <= j < tasks.len() ==> tasks[j].parent != id,
    ensures
        children_total(recs, tasks, id, k, fuel) == 0,
        children_fit(recs, tasks, id, k, fuel),
        !deep_children(tasks, id, k, fuel),
    decreases k,
{
    if k > 0 {
        lemma_no_children(recs, tasks, id, (k - 1) as nat, fuel);
    }
}

/// A task with no records and no subtasks has duration 0, and computing it succeeds.
pub proof fn lemma_leaf_duration_zero(recs: Seq<Record>, tasks: Seq<Task>, id: i64)
    requires
        forall|i: int| 0 <= i < recs.len() ==> recs[i].task != id,
        forall|j: int| 0 <= j < tasks.len() ==> tasks[j].parent != id,
    ensures
        !has_cycle(tasks, id),
        subtree_fits(recs, tasks, id, tasks.len() + 1),
        total_duration(recs, tasks, id) == 0,
{
    lemma_no_own_records(recs, id, recs.len());
    lemma_no_children(recs, tasks, id, tasks.len(), tasks.len());
}

proof fn lemma_same_shape(
    recs1: Seq<Record>,
    tasks1: Seq<Task>,
    recs2: Seq<Record>,
    tasks2: Seq<Task>,
    id: i64,
    fuel: nat,
)
    requires
        forall|x: i64|
            own_total(recs1, x, recs1.len()) == own_total(recs2, x, recs2.len()) && own_fits(
                recs1,
                x,
                recs1.len(),
            ) == own_fits(recs2, x, recs2.len()),
        tasks1.len() == tasks2.len(),
        forall|i: int|
            0 <= i < tasks1.len() ==> tasks1[i].id == tasks2[i].id && tasks1[i].parent
                == tasks2[i].parent,
    ensures
        subtree_total(recs1, tasks1, id, fuel) == subtree_total(recs2, tasks2, id, fuel),
        subtree_fits(recs1, tasks1, id, fuel) == subtree_fits(recs2, tasks2, id, fuel),
        deep(tasks1, id, fuel) == deep(tasks2, id, fuel),
    decreases fuel, 0nat,
{
    if fuel > 0 {
        lemma_same_shape_children(recs1, tasks1, recs2, tasks2, id, tasks1.len(), (fuel - 1) as nat);
    }
}

proof fn lemma_same_shape_children(
    recs1: Seq<Record>,
    tasks1: Seq<Task>,
    recs2: Seq<Record>,
    tasks2: Seq<Task>,
    id: i64,
    k: nat,
    fuel: nat,
)
    requires
        forall|x: i64|
            own_total(recs1, x, recs1.len()) == own_total(recs2, x, recs2.len()) && own_fits(
                recs1,
                x,
                recs1.len(),
            ) == own_fits(recs2, x, recs2.len()),
        tasks1.len() == tasks2.len(),
        forall|i: int|
            0 <= i < tasks1.len() ==> tasks1[i].id == tasks2[i].id && tasks1[i].parent
                == tasks2[i].parent,
    ensures
        children_total(recs1, tasks1, id, k, fuel) == children_total(recs2, tasks2, id, k, fuel),
        children_fit(recs1, tasks1, id, k, fuel) == children_fit(recs2, tasks2, id, k, fuel),
        deep_children(tasks1, id, k, fuel) == deep_children(tasks2, id, k, fuel),
    decreases fuel, k + 1,
{
    if k > 0 && k <= tasks1.len() {
        lemma_same_shape_children(recs1, tasks1, recs2, tasks2, id, (k - 1) as nat, fuel);
        lemma_same_shape(recs1, tasks1, recs2, tasks2, tasks1[k - 1].id, fuel);
        assert(own_total(recs1, id, recs1.len()) == own_total(recs2, id, recs2.len()));
    }
}

/// The duration of a task, whether it has a cycle and whether computing it
/// overflows depend on the tasks' ids and parent links alone: the other
/// fields (`done` among them) do not matter, so a child that is done counts
/// as any other.
pub proof fn lemma_duration_reads_only_links(recs: Seq<Record>, tasks1: Seq<Task>, tasks2: Seq<Task>, id: i64)
    requires
        tasks1.len() == tasks2.len(),
        forall|i: int|
            0 <= i < tasks1.len() ==> tasks1[i].id == tasks2[i].id && tasks1[i].parent
                == tasks2[i].parent,
    ensures
        total_duration(recs, tasks1, id) == total_duration(recs, tasks2, id),
        has_cycle(tasks1, id) == has_cycle(tasks2, id),
        subtree_fits(recs, tasks1, id, tasks1.len() + 1) == subtree_fits(recs, tasks2, id, tasks2.len() + 1),
{
    lemma_same_shape(recs, tasks1, recs, tasks2, id, tasks1.len() + 1);
}

proof fn lemma_own_push_incomplete(recs: Seq<Record>, r: Record, x: i64, k: nat)
    requires
        r.incomplete,
        k <= recs.len(),
    ensures
        own_total(recs.push(r), x, k) == own_total(recs, x, k),
        own_fits(recs.push(r), x, k) == own_fits(recs, x, k),
    decreases k,
{
    if k > 0 {
        lemma_own_push_incomplete(recs, r, x, (k - 1) as nat);
        assert(recs.push(r)[k - 1] == recs[k - 1]);
    }
}

/// An incomplete record is never counted: adding one to the store changes
/// neither the duration of any task nor whether computing it overflows.
pub proof fn lemma_incomplete_record_not_counted(recs: Seq<Record>, tasks: Seq<Task>, r: Record, id: i64)
    requires
        r.incomplete,
    ensures
        total_duration(recs.push(r), tasks, id) == total_duration(recs, tasks, id),
        subtree_fits(recs.push(r), tasks, id, tasks.len() + 1) == subtree_fits(recs, tasks, id, tasks.len() + 1),
{
    assert forall|x: i64|
        own_total(recs.push(r), x, recs.push(r).len()) == own_total(recs, x, recs.len()) && own_fits(
            recs.push(r),
            x,
            recs.push(r).len(),
        ) == own_fits(recs, x, recs.len()) by {
        lemma_own_push_incomplete(recs, r, x, recs.len());
        assert(recs.push(r)[recs.len() as int] == r);
    }
    lemma_same_shape(recs.push(r), tasks, recs, tasks, id, tasks.len() + 1);
}

/// Whether a chain of `fuel` descendants starts at task `id`.
fn descends(tasks: &Vec<Task>, id: i64, fuel: u128) -> (r: bool)
    ensures
        r == deep(tasks@, id, fuel as nat),
    decreases fuel,
{
    if fuel == 0 {
        return true;
    }
    let mut found = false;
    let mut j: usize = 0;
    while j < tasks.len()
        invariant
            j <= tasks@.len(),
            fuel > 0,
            found == deep_children(tasks@, id, j as nat, (fuel - 1) as nat),
        decreases tasks@.len() - j,
    {
        if !found && tasks[j].parent == id {
            found = descends(tasks, tasks[j].id, fuel - 1);
        }
        j = j + 1;
    }
    found
}

/// The duration of task `id` with child links followed at most `fuel` levels
/// deep, or `None` where a running total leaves `i64`.
fn subtree_duration(store: &Store, id: i64, fuel: u128) -> (r: Option<i64>)
    ensures
        r is Some <==> subtree_fits(store.records@, store.tasks@, id, fuel as nat),
        r is Some ==> r->0 == subtree_total(store.records@, store.tasks@, id, fuel as nat),
    decreases fuel,
{
    if fuel == 0 {
        return Some(0);
    }
    let ghost recs = store.records@;
    let ghost tasks = store.tasks@;
    let mut total: i64 = 0;
    let mut i: usize = 0;
    while i < store.records.len()
        invariant
            i <= recs.len(),
            fuel > 0,
            recs == store.records@,
            tasks == store.tasks@,
            own_fits(recs, id, i as nat),
            total == own_total(recs, id, i as nat),
        decreases recs.len() - i,
    {
        let r = store.records[i];
        if r.task == id && !r.incomplete {
            match total.checked_add(r.duration) {
                Some(t) => total = t,
                None => {
                    proof {
                        assert(own_total(recs, id, (i + 1) as nat) == total + r.duration);
                        assert(!own_fits(recs, id, (i + 1) as nat));
                        if own_fits(recs, id, recs.len()) {
                            lemma_own_fits_prefix(recs, id, (i + 1) as nat, recs.len());
                        }
                    }
                    return None;
                },
            }
        }
        i = i + 1;
    }
    let ghost own = total as int;
    let mut j: usize = 0;
    while j < store.tasks.len()
        invariant
            j <= tasks.len(),
            fuel > 0,
            recs == store.records@,
            tasks == store.tasks@,
            own == own_total(recs, id, recs.len()),
            own_fits(recs, id, recs.len()),
            children_fit(recs, tasks, id, j as nat, (fuel - 1) as nat),
            total == own + children_total(recs, tasks, id, j as nat, (fuel - 1) as nat),
        decreases tasks.len() - j,
    {
        if store.tasks[j].parent == id {
            let sub = subtree_duration(store, store.tasks[j].id, fuel - 1);
            match sub {
                Some(c) => match total.checked_add(c) {
                    Some(t) => total = t,
                    None => {
                        proof {
                            if children_fit(recs, tasks, id, tasks.len(), (fuel - 1) as nat) {
                                lemma_children_fit_prefix(recs, tasks, id, (j + 1) as nat, tasks.len(), (fuel - 1) as nat);
                            }
                        }
                        return None;
                    },
                },
                None => {
                    proof {
                        if children_fit(recs, tasks, id, tasks.len(), (fuel - 1) as nat) {
                            lemma_children_fit_prefix(recs, tasks, id, (j + 1) as nat, tasks.len(), (fuel - 1) as nat);
                        }
                    }
                    return None;
                },
            }
        }
        j = j + 1;
    }
    Some(total)
}

impl Task {
    /// The total time spent on the task, in seconds: the durations of its
    /// completed records plus the durations of its subtasks, recursively.
    /// The running interval of an incomplete record is not counted.
    ///
    /// Fails with `Cycle` where parent links from the task loop, and with
    /// `Overflow` where a running total leaves `i64`.
    pub fn duration(&self, store: &Store) -> (r: Result<i64, DurationError>)
        ensures
            r == Err::<i64, DurationError>(DurationError::Cycle) <==> has_cycle(store.tasks@, self.id),
            r is Ok <==> !has_cycle(store.tasks@, self.id) && subtree_fits(
                store.records@,
                store.tasks@,
                self.id,
                store.tasks@.len() + 1,
            ),
            r is Ok ==> r->Ok_0 == total_duration(store.records@, store.tasks@, self.id),
    {
        let fuel = store.tasks.len() as u128 + 1;
        if descends(&store.tasks, self.id, fuel) {
            return Err(DurationError::Cycle);
        }
        match subtree_duration(store, self.id, fuel) {
            Some(d) => Ok(d),
            None => Err(DurationError::Overflow),
        }
    }
}

} // verus!
