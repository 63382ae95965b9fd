use vstd::prelude::*;

use crate::task::Task;

verus! {

/// A timed interval of work on the task `task`: it began at the unix time
/// `start` and lasted `duration` seconds. An incomplete record is one still
/// being timed: its `duration` is not final.
#[derive(Clone, Copy, PartialEq, Eq, Structural, Debug)]
pub struct Record {
    pub id: i64,
    pub task: i64,
    pub start: i64,
    pub duration: i64,
    pub incomplete: bool,
}

/// A snapshot of the persistence store: every record and every task it holds,
/// in the order in which the store reports them.
pub struct Store {
    pub records: Vec<Record>,
    pub tasks: Vec<Task>,
}

/// Why the running record of a task could not be given.
#[derive(Clone, Copy, PartialEq, Eq, Structural, Debug)]
pub enum RecordError {
    /// The store holds more than one incomplete record for the task.
    MultipleIncomplete,
    /// The elapsed time `now - start` leaves the range of `i64`.
    Overflow,
}

/// The incomplete records of task `id` among the first `k` records, in store order.
pub open spec fn open_records(recs: Seq<Record>, id: i64, k: nat) -> Seq<Record>
    decreases k,
{
    if k == 0 || k > recs.len() {
        Seq::empty()
    } else {
        open_records(recs, id, (k - 1) as nat) + if recs[k - 1].task == id && recs[k - 1].incomplete {
            seq![recs[k - 1]]
        } else {
            Seq::empty()
        }
    }
}

/// `r` with its duration replaced by the time elapsed from its start to `now`.
pub open spec fn running(r: Record, now: i64) -> Record {
    Record { duration: (now - r.start) as i64, ..r }
}

impl Task {
    /// The record of the task that is still being timed, with its duration
    /// set to the time elapsed from its start to `now` (the store is not
    /// changed); `None` where the task has no incomplete record.
    ///
    /// Fails with `MultipleIncomplete` where the store holds two or more
    /// incomplete records for the task, and with `Overflow` where
    /// `now - start` leaves `i64`.
    pub fn incomplete_record(&self, store: &Store, now: i64) -> (r: Result<Option<Record>, RecordError>)
        ensures
            ({
                let open = open_records(store.records@, self.id, store.records@.len());
                &&& open.len() == 0 ==> r == Ok::<Option<Record>, RecordError>(None)
                &&& open.len() == 1 && i64::MIN <= now - open[0].start <= i64::MAX ==> r == Ok::<
                    Option<Record>,
                    RecordError,
                >(Some(running(open[0], now)))
                &&& open.len() == 1 && !(i64::MIN <= now - open[0].start <= i64::MAX) ==> r == Err::<
                    Option<Record>,
                    RecordError,
                >(RecordError::Overflow)
                &&& open.len() >= 2 ==> r == Err::<Option<Record>, RecordError>(
                    RecordError::MultipleIncomplete,
                )
            }),
    {
        let ghost recs = store.records@;
        let mut open: Vec<Record> = Vec::new();
        let mut i: usize = 0;
        while i < store.records.len()
            invariant
                i <= recs.len(),
                recs == store.records@,
                open@ == open_records(recs, self.id, i as nat),
            decreases recs.len() - i,
        {
            let rec = store.records[i];
            if rec.task == self.id && rec.incomplete {
                open.push(rec);
            }
            assert(open@ =~= open_records(recs, self.id, (i + 1) as nat));
            i = i + 1;
        }
        if open.len() == 0 {
            Ok(None)
        } else if open.len() == 1 {
            let rec = open[0];
            match now.checked_sub(rec.start) {
                Some(elapsed) => Ok(Some(Record { duration: elapsed, ..rec })),
                None => Err(RecordError::Overflow),
            }
        } else {
            Err(RecordError::MultipleIncomplete)
        }
    }
}

} // verus!
