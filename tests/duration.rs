use progress::{DurationError, Property, Record, RecordError, Store, Task};

fn task(id: i64, parent: i64) -> Task {
    Task::new(&[Property::Id(id), Property::Parent(parent)])
}

fn done(id: i64, task: i64, duration: i64) -> Record {
    Record { id, task, start: 1000, duration, incomplete: false }
}

fn running(id: i64, task: i64, start: i64) -> Record {
    Record { id, task, start, duration: 0, incomplete: true }
}

#[test]
fn leaf_task_has_zero_duration() {
    let store = Store { records: vec![done(1, 9, 50)], tasks: vec![task(1, 0), task(9, 0)] };
    assert_eq!(task(1, 0).duration(&store), Ok(0));
    let empty = Store { records: vec![], tasks: vec![] };
    assert_eq!(task(4, 0).duration(&empty), Ok(0));
}

#[test]
fn duration_sums_own_records_and_subtasks() {
    let store = Store {
        records: vec![done(1, 1, 60), done(2, 2, 30)],
        tasks: vec![task(1, 0), task(2, 1), task(3, 1)],
    };
    assert_eq!(task(1, 0).duration(&store), Ok(90));
    assert_eq!(task(2, 1).duration(&store), Ok(30));
    assert_eq!(task(3, 1).duration(&store), Ok(0));
}

#[test]
fn duration_over_a_deep_forest() {
    let store = Store {
        records: vec![done(1, 1, 1), done(2, 2, 10), done(3, 3, 100), done(4, 4, 1000), done(5, 5, 5), done(6, 3, 200)],
        tasks: vec![task(1, 0), task(2, 1), task(3, 2), task(4, 3), task(5, 0)],
    };
    assert_eq!(task(4, 3).duration(&store), Ok(1000));
    assert_eq!(task(3, 2).duration(&store), Ok(1300));
    assert_eq!(task(2, 1).duration(&store), Ok(1310));
    assert_eq!(task(1, 0).duration(&store), Ok(1311));
    assert_eq!(task(5, 0).duration(&store), Ok(5));
}

#[test]
fn duration_ignores_incomplete_records() {
    let store = Store { records: vec![done(1, 1, 40), running(2, 1, 5)], tasks: vec![task(1, 0)] };
    assert_eq!(task(1, 0).duration(&store), Ok(40));
}

#[test]
fn duration_detects_cycle() {
    let store = Store { records: vec![done(1, 1, 40)], tasks: vec![task(1, 2), task(2, 1)] };
    assert_eq!(task(1, 2).duration(&store), Err(DurationError::Cycle));
    let own_parent = Store { records: vec![], tasks: vec![task(3, 3)] };
    assert_eq!(task(3, 3).duration(&own_parent), Err(DurationError::Cycle));
}

#[test]
fn duration_reports_overflow() {
    let store = Store { records: vec![done(1, 1, i64::MAX), done(2, 2, 1)], tasks: vec![task(1, 0), task(2, 1)] };
    assert_eq!(task(1, 0).duration(&store), Err(DurationError::Overflow));
    assert_eq!(task(2, 1).duration(&store), Ok(1));
}

#[test]
fn incomplete_record_absent() {
    let store = Store { records: vec![done(1, 1, 40), running(2, 2, 5)], tasks: vec![] };
    assert_eq!(task(1, 0).incomplete_record(&store, 100), Ok(None));
}

#[test]
fn incomplete_record_has_elapsed_duration() {
    let store = Store { records: vec![done(1, 1, 40), running(2, 1, 1000)], tasks: vec![] };
    let r = task(1, 0).incomplete_record(&store, 1600).unwrap().unwrap();
    assert_eq!(r, Record { id: 2, task: 1, start: 1000, duration: 600, incomplete: true });
    assert_eq!(store.records[1].duration, 0);
}

#[test]
fn incomplete_record_multiple_is_an_error() {
    let store = Store { records: vec![running(1, 1, 10), running(2, 1, 20)], tasks: vec![] };
    assert_eq!(task(1, 0).incomplete_record(&store, 100), Err(RecordError::MultipleIncomplete));
}

#[test]
fn incomplete_record_overflow() {
    let store = Store { records: vec![running(1, 1, i64::MIN)], tasks: vec![] };
    assert_eq!(task(1, 0).incomplete_record(&store, 1), Err(RecordError::Overflow));
}

#[test]
fn done_children_are_counted() {
    let mut child = task(2, 1);
    child.done = true;
    let store = Store { records: vec![done(1, 1, 5), done(2, 2, 7)], tasks: vec![task(1, 0), child] };
    assert_eq!(task(1, 0).duration(&store), Ok(12));
}

#[test]
fn adding_an_incomplete_record_keeps_duration() {
    let mut store = Store { records: vec![done(1, 1, 5), done(2, 2, 7)], tasks: vec![task(1, 0), task(2, 1)] };
    let before = task(1, 0).duration(&store);
    store.records.push(running(3, 2, 100));
    assert_eq!(task(1, 0).duration(&store), before);
    assert_eq!(before, Ok(12));
}
