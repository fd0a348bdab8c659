//! What it takes to reach one table.
//!
//! Each kind of tabular data is reached in its own way: a delimited text
//! lies in a file, so its accessor is the path of that file.

use vstd::prelude::*;
use vstd::string::*;
use crate::errors::Kind;
use crate::errors::SubparError;
use crate::errors::plain_error;
use crate::helpers::file_stem_of;
use crate::helpers::occurs_in;
use crate::helpers::to_sheet_name;
use crate::text::concat3;

verus! {

/// How a table is reached.
#[derive(Clone, PartialEq, Eq, Debug)]
pub enum Accessor {
    /// A delimited text, by the path of its file.
    Csv(String),
}

impl Accessor {
    /// The path of the file.
    pub open spec fn path(self) -> Seq<char> {
        match self {
            Accessor::Csv(path) => path@,
        }
    }
}

/// The message for a path that is not there.
pub open spec fn msg_no_such_path(path: Seq<char>) -> Seq<char> {
    "path "@ + path + " does not exist on the system and cannot be canonicalized"@
}

impl Accessor {
    /// The accessor of the delimited text at `path`.
    pub fn new_csv(path: &str) -> (accessor: Accessor)
        ensures
            accessor.path() == path@,
    {
        Accessor::Csv(path.to_owned())
    }

    /// The accessor with its path made absolute. `resolved` is the absolute
    /// path that the file system gave for the path of the accessor, `None`
    /// where neither the path nor the directory above it is there.
    pub fn canonicalize(self, _create_missing: bool, resolved: Option<String>) -> (accessor: Result<
        Accessor,
        SubparError,
    >)
        ensures
            match resolved {
                Some(absolute) => accessor matches Ok(a) && a.path() == absolute@,
                None => accessor matches Err(e) && e@ == plain_error(
                    Kind::InvalidPath,
                    msg_no_such_path(self.path()),
                ),
            },
    {
        match self {
            Accessor::Csv(path) => match resolved {
                Some(absolute) => Ok(Accessor::Csv(absolute)),
                None => Err(
                    SubparError::new(
                        Kind::InvalidPath,
                        concat3(
                            "path ",
                            path.as_str(),
                            " does not exist on the system and cannot be canonicalized",
                        ),
                    ),
                ),
            },
        }
    }

    /// The name to call a workbook by, given the sheet name that was
    /// found for its path: that name, or the path where none was found.
    pub fn name_from(&self, sheet_name: Result<String, SubparError>) -> (name: String)
        ensures
            name@ == match sheet_name {
                Ok(stem) => stem@,
                Err(_) => self.path(),
            },
    {
        match sheet_name {
            Ok(stem) => stem,
            Err(_) => match self {
                Accessor::Csv(path) => path.clone(),
            },
        }
    }

    /// A pretty name to call a workbook by: the name of the file without
    /// its extension or, for a path that ends in no file name, the path.
    pub fn name(&self) -> (name: String)
        ensures
            name@ == match file_stem_of(self.path()) {
                Some(stem) => stem,
                None => self.path(),
            },
            occurs_in(name@, self.path()),
    {
        match self {
            Accessor::Csv(path) => {
                assert(path@.subrange(0, 0 + path@.len() as int) == path@);
                self.name_from(to_sheet_name(path.as_str()))
            },
        }
    }
}

} // verus!
