use vstd::prelude::*;
use vstd::string::StringExecFns;

use crate::task::{Task, TaskView};

verus! {

/// A self-describing value in the fixed positional transfer format: typed
/// scalars and tuples of values.
pub enum Variant {
    /// A signed 64-bit integer (type code `x`).
    Int64(i64),
    /// A signed 32-bit integer (type code `i`).
    Int32(i32),
    /// A boolean (type code `b`).
    Bool(bool),
    /// A string (type code `s`).
    Str(String),
    /// A tuple of values, in order (type code `(` ... `)`).
    Tuple(Vec<Variant>),
}

/// Whether `v` is a tuple of exactly ten items whose types are, in order,
/// 64-bit integer, string, boolean, 64-bit integer, 64-bit integer, 32-bit
/// integer, boolean, 64-bit integer, string, 64-bit integer.
pub open spec fn fits_schema(v: Variant) -> bool {
    match v {
        Variant::Tuple(items) => {
            let s = items@;
            &&& s.len() == 10
            &&& s[0] is Int64
            &&& s[1] is Str
            &&& s[2] is Bool
            &&& s[3] is Int64
            &&& s[4] is Int64
            &&& s[5] is Int32
            &&& s[6] is Bool
            &&& s[7] is Int64
            &&& s[8] is Str
            &&& s[9] is Int64
        },
        _ => false,
    }
}

/// The task whose fields are the ten items of `s`, read in declaration order.
pub open spec fn task_of_items(s: Seq<Variant>) -> TaskView {
    TaskView {
        id: s[0]->Int64_0,
        name: s[1]->Str_0@,
        done: s[2]->Bool_0,
        project: s[3]->Int64_0,
        section: s[4]->Int64_0,
        position: s[5]->Int32_0,
        suspended: s[6]->Bool_0,
        parent: s[7]->Int64_0,
        description: s[8]->Str_0@,
        date: s[9]->Int64_0,
    }
}

/// Whether `v` is the payload of the task `t`.
pub open spec fn encodes(v: Variant, t: TaskView) -> bool {
    fits_schema(v) && task_of_items(v->Tuple_0@) == t
}

/// Decoding the payload of a task gives that task back, field for field.
pub proof fn lemma_round_trip(v: Variant, t: TaskView)
    requires
        encodes(v, t),
    ensures
        fits_schema(v),
        task_of_items(v->Tuple_0@) == t,
{
}

/// A value that is not a tuple of exactly ten items fits no task's schema,
/// so decoding it gives no task.
pub proof fn lemma_wrong_arity_rejected(v: Variant)
    requires
        !(v is Tuple) || v->Tuple_0@.len() != 10,
    ensures
        !fits_schema(v),
{
}

impl Task {
    /// The type string of the payload of a task.
    pub fn static_variant_type() -> (r: String)
        ensures
            r@ == "(xsbxxibxsx)"@,
    {
        String::from_str("(xsbxxibxsx)")
    }

    /// The payload of the task: a tuple of its ten fields in declaration order.
    pub fn to_variant(&self) -> (r: Variant)
        ensures
            encodes(r, self@),
    {
        let items: Vec<Variant> = vec![
            Variant::Int64(self.id),
            Variant::Str(self.name.clone()),
            Variant::Bool(self.done),
            Variant::Int64(self.project),
            Variant::Int64(self.section),
            Variant::Int32(self.position),
            Variant::Bool(self.suspended),
            Variant::Int64(self.parent),
            Variant::Str(self.description.clone()),
            Variant::Int64(self.date),
        ];
        Variant::Tuple(items)
    }

    /// The task that the payload `v` holds; `None` where `v` does not have
    /// exactly the ten-field schema of a task.
    pub fn from_variant(v: &Variant) -> (r: Option<Task>)
        ensures
            r is Some <==> fits_schema(*v),
            r is Some ==> encodes(*v, r->0@),
    {
        let items = match v {
            Variant::Tuple(items) => items,
            _ => return None,
        };
        if items.len() != 10 {
            return None;
        }
        let id = match &items[0] {
            Variant::Int64(x) => *x,
            _ => return None,
        };
        let name = match &items[1] {
            Variant::Str(x) => x.clone(),
            _ => return None,
        };
        let done = match &items[2] {
            Variant::Bool(x) => *x,
            _ => return None,
        };
        let project = match &items[3] {
            Variant::Int64(x) => *x,
            _ => return None,
        };
        let section = match &items[4] {
            Variant::Int64(x) => *x,
            _ => return None,
        };
        let position = match &items[5] {
            Variant::Int32(x) => *x,
            _ => return None,
        };
        let suspended = match &items[6] {
            Variant::Bool(x) => *x,
            _ => return None,
        };
        let parent = match &items[7] {
            Variant::Int64(x) => *x,
            _ => return None,
        };
        let description = match &items[8] {
            Variant::Str(x) => x.clone(),
            _ => return None,
        };
        let date = match &items[9] {
            Variant::Int64(x) => *x,
            _ => return None,
        };
        Some(Task { id, name, done, project, section, position, suspended, parent, description, date })
    }
}

} // verus!
