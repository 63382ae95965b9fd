//! Task model of a personal time tracker: field-level diffing, recursive
//! duration aggregation over a store snapshot, relative date labels and a
//! fixed positional payload codec.

pub mod codec;
pub mod date;
pub mod duration;
pub mod row;
pub mod store;
pub mod task;
pub mod text;

pub use codec::Variant;
pub use date::{DateNames, LocalDate};
pub use duration::DurationError;
pub use row::{RowError, SqlValue};
pub use store::{Record, RecordError, Store};
pub use task::{Property, Task, TaskView};
