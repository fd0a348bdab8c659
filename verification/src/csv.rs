//! Tables kept as delimited text.

pub mod instance;
pub mod io;
