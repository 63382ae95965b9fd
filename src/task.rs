use vstd::prelude::*;
use vstd::string::StringExecFns;

use crate::text::{bool_text, push_bool, push_signed, signed_decimal};

verus! {

/// A task: a unit of work that may own time records and child tasks.
///
/// `id == 0` means "not yet persisted"; `parent == 0` means top-level;
/// `date == 0` means "no date".
pub struct Task {
    pub id: i64,
    pub name: String,
    pub done: bool,
    pub project: i64,
    pub section: i64,
    pub position: i32,
    pub suspended: bool,
    pub parent: i64,
    pub description: String,
    pub date: i64,
}

/// The mathematical value of a `Task`: its ten fields, strings as character sequences.
pub ghost struct TaskView {
    pub id: i64,
    pub name: Seq<char>,
    pub done: bool,
    pub project: i64,
    pub section: i64,
    pub position: i32,
    pub suspended: bool,
    pub parent: i64,
    pub description: Seq<char>,
    pub date: i64,
}

impl View for Task {
    type V = TaskView;

    open spec fn view(&self) -> TaskView {
        TaskView {
            id: self.id,
            name: self.name@,
            done: self.done,
            project: self.project,
            section: self.section,
            position: self.position,
            suspended: self.suspended,
            parent: self.parent,
            description: self.description@,
            date: self.date,
        }
    }
}

/// One named field value, as accepted by [`Task::new`].
pub enum Property {
    Id(i64),
    Name(String),
    Done(bool),
    Project(i64),
    Section(i64),
    Position(i32),
    Suspended(bool),
    Parent(i64),
    Description(String),
    Date(i64),
}

/// The view of a task whose fields all hold their zero value.
pub open spec fn empty_view() -> TaskView {
    TaskView {
        id: 0,
        name: Seq::empty(),
        done: false,
        project: 0,
        section: 0,
        position: 0,
        suspended: false,
        parent: 0,
        description: Seq::empty(),
        date: 0,
    }
}

/// `v` with the one field that `p` names set to the value `p` carries.
pub open spec fn with_property(v: TaskView, p: Property) -> TaskView {
    match p {
        Property::Id(x) => TaskView { id: x, ..v },
        Property::Name(x) => TaskView { name: x@, ..v },
        Property::Done(x) => TaskView { done: x, ..v },
        Property::Project(x) => TaskView { project: x, ..v },
        Property::Section(x) => TaskView { section: x, ..v },
        Property::Position(x) => TaskView { position: x, ..v },
        Property::Suspended(x) => TaskView { suspended: x, ..v },
        Property::Parent(x) => TaskView { parent: x, ..v },
        Property::Description(x) => TaskView { description: x@, ..v },
        Property::Date(x) => TaskView { date: x, ..v },
    }
}

/// The view reached from `v` by applying `ps` in order (a later value wins).
pub open spec fn with_properties(v: TaskView, ps: Seq<Property>) -> TaskView
    decreases ps.len(),
{
    if ps.len() == 0 {
        v
    } else {
        with_property(with_properties(v, ps.drop_last()), ps.last())
    }
}

/// The names of the fields in which `a` and `b` differ, in declaration order.
pub open spec fn differing_fields(a: TaskView, b: TaskView) -> Seq<&'static str> {
    (if a.id != b.id { seq!["id"] } else { Seq::empty() })
    + (if a.name != b.name { seq!["name"] } else { Seq::empty() })
    + (if a.done != b.done { seq!["done"] } else { Seq::empty() })
    + (if a.project != b.project { seq!["project"] } else { Seq::empty() })
    + (if a.section != b.section { seq!["section"] } else { Seq::empty() })
    + (if a.position != b.position { seq!["position"] } else { Seq::empty() })
    + (if a.suspended != b.suspended { seq!["suspended"] } else { Seq::empty() })
    + (if a.parent != b.parent { seq!["parent"] } else { Seq::empty() })
    + (if a.description != b.description { seq!["description"] } else { Seq::empty() })
    + (if a.date != b.date { seq!["date"] } else { Seq::empty() })
}

/// The names of a task's fields, in declaration order.
pub open spec fn field_names() -> Seq<&'static str> {
    seq!["id", "name", "done", "project", "section", "position", "suspended", "parent", "description", "date"]
}

/// Whether `a` and `b` differ in the field at index `i` of [`field_names`].
pub open spec fn differs_at(a: TaskView, b: TaskView, i: int) -> bool {
    if i == 0 {
        a.id != b.id
    } else if i == 1 {
        a.name != b.name
    } else if i == 2 {
        a.done != b.done
    } else if i == 3 {
        a.project != b.project
    } else if i == 4 {
        a.section != b.section
    } else if i == 5 {
        a.position != b.position
    } else if i == 6 {
        a.suspended != b.suspended
    } else if i == 7 {
        a.parent != b.parent
    } else if i == 8 {
        a.description != b.description
    } else if i == 9 {
        a.date != b.date
    } else {
        false
    }
}

/// The names of the fields among the first `n` in which `a` and `b` differ.
pub open spec fn differing_upto(a: TaskView, b: TaskView, n: nat) -> Seq<&'static str>
    decreases n,
{
    if n == 0 {
        Seq::empty()
    } else {
        differing_upto(a, b, (n - 1) as nat) + if differs_at(a, b, n - 1) {
            seq![field_names()[n - 1]]
        } else {
            Seq::empty()
        }
    }
}

/// The indices of the fields among the first `n` in which `a` and `b` differ.
pub open spec fn differing_indices(a: TaskView, b: TaskView, n: nat) -> Seq<int>
    decreases n,
{
    if n == 0 {
        Seq::empty()
    } else {
        differing_indices(a, b, (n - 1) as nat) + if differs_at(a, b, n - 1) {
            seq![n - 1]
        } else {
            Seq::empty()
        }
    }
}

proof fn lemma_differing_upto(a: TaskView, b: TaskView, n: nat)
    requires
        n <= 10,
    ensures
        differing_upto(a, b, n).len() == differing_indices(a, b, n).len() <= n,
        forall|k: int|
            0 <= k < differing_indices(a, b, n).len() ==> 0 <= #[trigger] differing_indices(a, b, n)[k] < n
                && differing_upto(a, b, n)[k] == field_names()[differing_indices(a, b, n)[k]],
        forall|k: int, l: int|
            0 <= k < l < differing_indices(a, b, n).len() ==> #[trigger] differing_indices(a, b, n)[k]
                < #[trigger] differing_indices(a, b, n)[l],
    decreases n,
{
    if n > 0 {
        lemma_differing_upto(a, b, (n - 1) as nat);
    }
}

/// The fields in which two tasks differ are listed at most once each, in
/// declaration order: the list picks names of [`field_names`] at strictly
/// increasing indices, and holds no name twice.
pub proof fn lemma_differences_in_field_order(a: TaskView, b: TaskView)
    ensures
        differing_fields(a, b) == differing_upto(a, b, 10),
        differing_fields(a, b).len() <= 10,
        forall|k: int|
            0 <= k < differing_fields(a, b).len() ==> 0 <= #[trigger] differing_indices(a, b, 10)[k] < 10
                && differing_fields(a, b)[k] == field_names()[differing_indices(a, b, 10)[k]],
        forall|k: int, l: int|
            0 <= k < l < differing_fields(a, b).len() ==> #[trigger] differing_indices(a, b, 10)[k]
                < #[trigger] differing_indices(a, b, 10)[l],
        differing_fields(a, b).no_duplicates(),
{
    reveal_with_fuel(differing_upto, 11);
    assert(differing_fields(a, b) =~= differing_upto(a, b, 10));
    lemma_differing_upto(a, b, 10);
    reveal_strlit("id");
    reveal_strlit("name");
    reveal_strlit("done");
    reveal_strlit("project");
    reveal_strlit("section");
    reveal_strlit("position");
    reveal_strlit("suspended");
    reveal_strlit("parent");
    reveal_strlit("description");
    reveal_strlit("date");
    assert forall|i: int, j: int| 0 <= i < j < 10 implies field_names()[i]@ != field_names()[j]@ by {
        assert(field_names()[i]@.len() != field_names()[j]@.len() || field_names()[i]@[0] != field_names()[j]@[0]
            || field_names()[i]@[1] != field_names()[j]@[1] || field_names()[i]@[2] != field_names()[j]@[2]);
    }
    let r = differing_fields(a, b);
    let idx = differing_indices(a, b, 10);
    assert forall|k: int, l: int| 0 <= k < r.len() && 0 <= l < r.len() && k != l implies r[k] != r[l] by {
        if k < l {
            assert(idx[k] < idx[l]);
            assert(field_names()[idx[k]]@ != field_names()[idx[l]]@);
        } else {
            assert(idx[l] < idx[k]);
            assert(field_names()[idx[l]]@ != field_names()[idx[k]]@);
        }
    }
}

/// No field of a task differs from itself.
pub proof fn lemma_no_difference_with_itself(t: TaskView)
    ensures
        differing_fields(t, t) == Seq::<&'static str>::empty(),
{
    assert(differing_fields(t, t) =~= Seq::<&'static str>::empty());
}

/// Appends `name` to `names` when `cond` holds.
fn push_if(names: &mut Vec<&'static str>, cond: bool, name: &'static str)
    ensures
        final(names)@ == old(names)@ + (if cond { seq![name] } else { Seq::<&'static str>::empty() }),
{
    if cond {
        names.push(name);
    }
    assert(names@ =~= old(names)@ + (if cond { seq![name] } else { Seq::<&'static str>::empty() }));
}

impl Task {
    /// Sets the one field that `p` names.
    fn set(&mut self, p: &Property)
        ensures
            final(self)@ == with_property(old(self)@, *p),
    {
        match p {
            Property::Id(x) => self.id = *x,
            Property::Name(x) => self.name = x.clone(),
            Property::Done(x) => self.done = *x,
            Property::Project(x) => self.project = *x,
            Property::Section(x) => self.section = *x,
            Property::Position(x) => self.position = *x,
            Property::Suspended(x) => self.suspended = *x,
            Property::Parent(x) => self.parent = *x,
            Property::Description(x) => self.description = x.clone(),
            Property::Date(x) => self.date = *x,
        }
    }

    /// A task whose fields are those given in `properties`, applied in order;
    /// every field not given holds its zero value (0, "", false).
    pub fn new(properties: &[Property]) -> (r: Task)
        ensures
            r@ == with_properties(empty_view(), properties@),
    {
        let mut t = Task {
            id: 0,
            name: String::new(),
            done: false,
            project: 0,
            section: 0,
            position: 0,
            suspended: false,
            parent: 0,
            description: String::new(),
            date: 0,
        };
        let mut i: usize = 0;
        while i < properties.len()
            invariant
                i <= properties@.len(),
                t@ == with_properties(empty_view(), properties@.take(i as int)),
            decreases properties@.len() - i,
        {
            t.set(&properties[i]);
            assert(properties@.take(i + 1).drop_last() =~= properties@.take(i as int));
            i = i + 1;
        }
        assert(properties@.take(i as int) =~= properties@);
        t
    }

    /// The names of the fields whose values differ between `self` and `other`,
    /// in the order id, name, done, project, section, position, suspended,
    /// parent, description, date.
    pub fn different_properties(&self, other: &Task) -> (r: Vec<&'static str>)
        ensures
            r@ == differing_fields(self@, other@),
    {
        let mut properties: Vec<&'static str> = Vec::new();
        push_if(&mut properties, self.id != other.id, "id");
        push_if(&mut properties, self.name != other.name, "name");
        push_if(&mut properties, self.done != other.done, "done");
        push_if(&mut properties, self.project != other.project, "project");
        push_if(&mut properties, self.section != other.section, "section");
        push_if(&mut properties, self.position != other.position, "position");
        push_if(&mut properties, self.suspended != other.suspended, "suspended");
        push_if(&mut properties, self.parent != other.parent, "parent");
        push_if(&mut properties, self.description != other.description, "description");
        push_if(&mut properties, self.date != other.date, "date");
        assert(properties@ =~= differing_fields(self@, other@));
        properties
    }

    /// A fresh task holding the same value in every field, `id` included: a
    /// caller that stores the copy as a new task resets its `id` to 0 first.
    pub fn duplicate(&self) -> (r: Task)
        ensures
            r@ == self@,
    {
        Task {
            id: self.id,
            name: self.name.clone(),
            done: self.done,
            project: self.project,
            section: self.section,
            position: self.position,
            suspended: self.suspended,
            parent: self.parent,
            description: self.description.clone(),
            date: self.date,
        }
    }
}

/// The one-line description of a task: every field, labelled, in declaration order.
pub open spec fn task_text(t: TaskView) -> Seq<char> {
    "Task { id: "@ + signed_decimal(t.id as int) + " name: "@ + t.name + " done: "@ + bool_text(t.done)
        + " project: "@ + signed_decimal(t.project as int) + " section: "@ + signed_decimal(
        t.section as int,
    ) + " position: "@ + signed_decimal(t.position as int) + " suspended: "@ + bool_text(
        t.suspended,
    ) + " parent: "@ + signed_decimal(t.parent as int) + " description: "@ + t.description
        + " date: "@ + signed_decimal(t.date as int) + " }"@
}

impl Default for Task {
    /// The task whose fields all hold their zero value.
    fn default() -> (r: Task)
        ensures
            r@ == empty_view(),
    {
        Task::new(&[])
    }
}

impl Task {
    /// The one-line description of the task, for logs and debugging.
    pub fn to_string(&self) -> (r: String)
        ensures
            r@ == task_text(self@),
    {
        let mut s = String::new();
        s.append("Task { id: ");
        push_signed(&mut s, self.id);
        s.append(" name: ");
        s.append(self.name.as_str());
        s.append(" done: ");
        push_bool(&mut s, self.done);
        s.append(" project: ");
        push_signed(&mut s, self.project);
        s.append(" section: ");
        push_signed(&mut s, self.section);
        s.append(" position: ");
        push_signed(&mut s, self.position as i64);
        s.append(" suspended: ");
        push_bool(&mut s, self.suspended);
        s.append(" parent: ");
        push_signed(&mut s, self.parent);
        s.append(" description: ");
        s.append(self.description.as_str());
        s.append(" date: ");
        push_signed(&mut s, self.date);
        s.append(" }");
        s
    }
}

} // verus!
