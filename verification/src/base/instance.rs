//! What every workbook can do, whatever it is kept in.

use vstd::prelude::*;
use crate::base::sheet::SheetAccessor;
use crate::errors::SubparError;

verus! {

/// The ways in which a source can be used.
#[derive(Clone, Copy, PartialEq, Eq, PartialOrd, Ord, Hash, Debug, Structural)]
pub enum Mode {
    /// Allowed to read from the source.
    Read,
    /// Add new rows at the end.
    Append,
    /// Add new rows at a given place.
    Insert,
    /// Change values that are there.
    Update,
    /// Put new contents in place of the old.
    Overwrite,
}

impl Default for Mode {
    fn default() -> (mode: Mode)
        ensures
            mode == Mode::Read,
    {
        Mode::Read
    }
}

impl Mode {
    /// Reading and nothing else.
    pub fn read_only() -> (modes: Vec<Mode>)
        ensures
            modes@ == seq![Mode::Read],
    {
        let mut modes: Vec<Mode> = Vec::new();
        modes.push(Mode::Read);
        assert(modes@ =~= seq![Mode::Read]);
        modes
    }

    /// Reading, and writing at the end.
    pub fn basic() -> (modes: Vec<Mode>)
        ensures
            modes@ == seq![Mode::Read, Mode::Append],
    {
        let mut modes: Vec<Mode> = Vec::new();
        modes.push(Mode::Read);
        modes.push(Mode::Append);
        assert(modes@ =~= seq![Mode::Read, Mode::Append]);
        modes
    }

    /// Reading and every way of adding rows.
    pub fn all() -> (modes: Vec<Mode>)
        ensures
            modes@ == seq![Mode::Read, Mode::Append, Mode::Insert, Mode::Overwrite],
    {
        let mut modes: Vec<Mode> = Vec::new();
        modes.push(Mode::Read);
        modes.push(Mode::Append);
        modes.push(Mode::Insert);
        modes.push(Mode::Overwrite);
        assert(modes@ =~= seq![Mode::Read, Mode::Append, Mode::Insert, Mode::Overwrite]);
        modes
    }
}

/// What a workbook of any kind answers.
pub trait SubparWorkbook {
    /// An identifier that no other workbook has.
    fn get_id(&self) -> Result<u128, SubparError>;

    /// A name for messages.
    fn get_name(&self) -> Result<String, SubparError>;

    /// The names of the sheets that are known.
    fn list_sheets(&self) -> Result<Vec<String>, SubparError>;

    /// How the sheet of the given name is reached.
    fn get_sheet_accessor(&self, sheet_name: &String) -> Result<SheetAccessor, SubparError>;
}

} // verus!
