//! Agenda triage for a to-do list.
//!
//! Tasks carry an optional due date and an optional threshold date. Given a
//! reference date and two display preferences, the agenda places every due
//! task in at most one of five consecutive buckets (past due, today,
//! tomorrow, this week, this month) and tells which days of the reference
//! month hold a due task. A second, simpler view lists the finished tasks.
//!
//! - [`date`]: calendar dates and their day numbers, made by chrono.
//! - [`tasks`]: the task and its priority.
//! - [`agenda`]: the buckets, the marked days, and what holds of them.
//! - [`done`]: the finished tasks.
//! - [`display`]: the words and labels that the card of a task shows.

pub mod agenda;
pub mod date;
pub mod display;
pub mod done;
pub mod tasks;
