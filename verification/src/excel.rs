//! Workbooks kept in Excel files.

use vstd::prelude::*;

verus! {

/// Where an Excel workbook lies.
#[derive(Clone, PartialEq, Eq, Debug)]
pub struct ExcelConfig {
    pub path: String,
}

} // verus!
