//! What every kind of tabular data has in common.

pub mod accessor;
pub mod cell;
pub mod instance;
pub mod messages;
pub mod row;
pub mod sheet;
pub mod state;
pub mod workbook;
