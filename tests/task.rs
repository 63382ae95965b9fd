use progress::{Property, Task, Variant};

fn sample() -> Task {
    Task::new(&[
        Property::Id(7),
        Property::Name("Write report".to_string()),
        Property::Done(true),
        Property::Project(3),
        Property::Section(4),
        Property::Position(-2),
        Property::Suspended(false),
        Property::Parent(1),
        Property::Description("first draft".to_string()),
        Property::Date(1_700_000_000),
    ])
}

fn same_fields(a: &Task, b: &Task) -> bool {
    a.id == b.id
        && a.name == b.name
        && a.done == b.done
        && a.project == b.project
        && a.section == b.section
        && a.position == b.position
        && a.suspended == b.suspended
        && a.parent == b.parent
        && a.description == b.description
        && a.date == b.date
}

#[test]
fn new_without_properties_is_all_zero() {
    let t = Task::new(&[]);
    assert_eq!(t.id, 0);
    assert_eq!(t.name, "");
    assert!(!t.done);
    assert_eq!(t.project, 0);
    assert_eq!(t.section, 0);
    assert_eq!(t.position, 0);
    assert!(!t.suspended);
    assert_eq!(t.parent, 0);
    assert_eq!(t.description, "");
    assert_eq!(t.date, 0);
    assert!(same_fields(&t, &Task::default()));
}

#[test]
fn new_applies_properties_in_order() {
    let t = Task::new(&[Property::Name("a".to_string()), Property::Position(5), Property::Name("b".to_string())]);
    assert_eq!(t.name, "b");
    assert_eq!(t.position, 5);
    assert_eq!(t.id, 0);
}

#[test]
fn different_properties_of_itself_is_empty() {
    let t = sample();
    assert!(t.different_properties(&t).is_empty());
    assert!(Task::default().different_properties(&Task::default()).is_empty());
}

#[test]
fn different_properties_lists_changed_fields_in_order() {
    let a = sample();
    let mut b = sample();
    b.date = 0;
    b.name = "Other".to_string();
    b.id = 8;
    b.suspended = true;
    assert_eq!(a.different_properties(&b), vec!["id", "name", "suspended", "date"]);
    let all = a.different_properties(&Task::new(&[Property::Done(false)]));
    assert_eq!(
        all,
        vec!["id", "name", "done", "project", "section", "position", "parent", "description", "date"]
    );
}

#[test]
fn duplicate_copies_every_field() {
    let a = sample();
    let b = a.duplicate();
    assert!(same_fields(&a, &b));
    assert!(a.different_properties(&b).is_empty());
}

#[test]
fn to_string_lists_every_field() {
    let t = sample();
    assert_eq!(
        t.to_string(),
        "Task { id: 7 name: Write report done: true project: 3 section: 4 position: -2 suspended: false parent: 1 description: first draft date: 1700000000 }"
    );
    let mut m = Task::default();
    m.id = i64::MIN;
    assert_eq!(
        m.to_string(),
        "Task { id: -9223372036854775808 name:  done: false project: 0 section: 0 position: 0 suspended: false parent: 0 description:  date: 0 }"
    );
}

#[test]
fn date_datetime_is_none_for_unset_date() {
    assert_eq!(Task::default().date_datetime(), None);
    assert_eq!(sample().date_datetime(), Some(1_700_000_000));
}

#[test]
fn variant_round_trip() {
    let t = sample();
    let back = Task::from_variant(&t.to_variant()).unwrap();
    assert!(same_fields(&t, &back));
    let mut edge = Task::default();
    edge.id = -1;
    edge.position = i32::MIN;
    edge.date = i64::MAX;
    let back = Task::from_variant(&edge.to_variant()).unwrap();
    assert!(same_fields(&edge, &back));
}

#[test]
fn variant_type_string() {
    assert_eq!(Task::static_variant_type(), "(xsbxxibxsx)");
}

#[test]
fn variant_of_other_shape_decodes_to_none() {
    let t = sample();
    let mut items = match t.to_variant() {
        Variant::Tuple(items) => items,
        _ => panic!("a task encodes as a tuple"),
    };
    assert_eq!(items.len(), 10);
    items.pop();
    assert!(Task::from_variant(&Variant::Tuple(items)).is_none());
    assert!(Task::from_variant(&Variant::Tuple(vec![])).is_none());
    assert!(Task::from_variant(&Variant::Int64(3)).is_none());
    let mut long = match t.to_variant() {
        Variant::Tuple(items) => items,
        _ => panic!("a task encodes as a tuple"),
    };
    long.push(Variant::Int64(0));
    assert!(Task::from_variant(&Variant::Tuple(long)).is_none());
    let mut wrong = match t.to_variant() {
        Variant::Tuple(items) => items,
        _ => panic!("a task encodes as a tuple"),
    };
    wrong[5] = Variant::Int64(1);
    assert!(Task::from_variant(&Variant::Tuple(wrong)).is_none());
}

#[test]
fn different_properties_never_repeats_a_field() {
    let a = sample();
    let b = Task::default();
    let d = a.different_properties(&b);
    assert!(d.len() <= 10);
    let order = ["id", "name", "done", "project", "section", "position", "suspended", "parent", "description", "date"];
    let idx: Vec<usize> = d.iter().map(|n| order.iter().position(|o| o == n).unwrap()).collect();
    assert!(idx.windows(2).all(|w| w[0] < w[1]));
}
