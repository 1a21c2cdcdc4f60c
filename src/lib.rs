//! A task record with a priority and an optional deadline, built through a
//! validating builder, and the rule that decides whether a task is urgent.
pub mod priority;
pub mod task;
pub mod time;
