//! Persistence and menu logic of an employee performance tracker.
//!
//! Employees, evaluation criteria and per-employee scores are kept in three
//! SQLite tables. The library builds the statements, binds every field as a
//! parameter, maps result rows back into records, and decides what the
//! interactive menu does with each line of input.
//!
//! - [`model`]: the three kinds of record.
//! - [`value`]: column values, and how floating-point numbers are carried.
//! - [`statement`]: the texts of the statements, and the commands that
//!   insert a record.
//! - [`rows`]: from the rows of a result to records.
//! - [`store`]: the operations on an open connection.
//! - [`text`]: trimming, and reading decimal integers.
//! - [`shell`]: the menu as a state machine.
//! - [`error`]: what a store operation fails with.
//! - [`engine`]: the calls into the `sqlite` crate, which are taken on trust.

pub mod engine;
pub mod error;
pub mod model;
pub mod rows;
pub mod shell;
pub mod statement;
pub mod store;
pub mod text;
pub mod value;
