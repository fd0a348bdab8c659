//! Reading the lines of a delimited text as rows.

pub mod reader;
