//! What can be asked of a workbook, and what a workbook reports.

use vstd::prelude::*;

verus! {

/// Commands that a workbook accepts.
#[derive(Clone, Copy, PartialEq, Eq, Debug, Structural)]
pub enum Action {
    Read,
    /// Write a workbook in a given format.
    Write,
    /// Open a workbook.
    Open,
    /// Retrieve what is known of the workbook.
    GetMetadata,
    /// Change the active sheet of the workbook.
    SetSheet,
    /// Read the next row of the active sheet.
    GetNextRow,
    /// Append a row to an open sheet.
    WriteRow,
    /// Append several rows to the current sheet.
    WriteBulk,
    /// Close an open reader or writer.
    Close,
}

/// What a workbook reports.
#[derive(Clone, Copy, PartialEq, Eq, Debug, Structural)]
pub enum Event {
    /// Found and opened a new workbook.
    WorkbookOpened,
    /// Made the workbook ready for reading and writing.
    ReadMetadata,
    /// Set the current sheet of a workbook.
    SheetChange,
    /// Closed the workbook. What is known of it may be kept.
    ClosedWorkbook,
    /// Read one or more rows from a sheet.
    ReadRowData,
    /// Read a whole sheet.
    ReadSheet,
    /// Wrote one or more rows to a sheet.
    WroteData,
}

} // verus!
