//! A tabular data manager.
//!
//! Rows of loosely typed cells are converted into validated records that follow a
//! declared row template. Every failure met on the way is collected, so that a
//! caller gets the rows that converted and a report of everything that did not.

pub mod base;
pub mod batch;
pub mod csv;
pub mod derive;
pub mod errors;
pub mod excel;
pub mod helpers;
pub mod json;
pub mod names;
pub mod number;
pub mod schema;
pub mod server;
pub mod text;
