//! Small tools for the names of files.

use vstd::prelude::*;
use vstd::string::*;
use crate::errors::ErrorView;
use crate::errors::Kind;
use crate::errors::SubparError;
use crate::errors::plain_error;
use crate::errors::text_view;
use crate::text::concat3;

verus! {

/// Whether `part` stands somewhere in `whole`, character by character.
pub open spec fn occurs_in(part: Seq<char>, whole: Seq<char>) -> bool {
    exists|i: int|
        0 <= i && i + part.len() <= whole.len() && #[trigger] whole.subrange(i, i + part.len())
            == part
}

/// The message for a path that names no file.
pub open spec fn msg_no_stem(path: Seq<char>) -> Seq<char> {
    "csv::to_sheet_name file '"@ + path + "' did not have a file stem"@
}

/// The stem that std finds in a path: the name of the file that the path
/// ends in, without its last extension; `None` where the path ends in no
/// file name.
pub uninterp spec fn file_stem_of(path: Seq<char>) -> Option<Seq<char>>;

/// The name of the sheet in the file at `path`: the stem of the path, or
/// the failure of a path without one.
pub open spec fn sheet_name_of(path: Seq<char>) -> Result<Seq<char>, ErrorView> {
    match file_stem_of(path) {
        Some(stem) => Ok(stem),
        None => Err(plain_error(Kind::InvalidLocation, msg_no_stem(path))),
    }
}

/// Calls `Path::file_stem` of std on `path`: the name of the file that the
/// path ends in, without its last extension; `None` where the path ends in
/// no file name. The stem is a piece of the path.
#[verifier::external_body]
fn file_stem(path: &str) -> (stem: Option<String>)
    ensures
        text_view(stem) == file_stem_of(path@),
        stem matches Some(s) ==> occurs_in(s@, path@),
{
    std::path::Path::new(path).file_stem().and_then(|s| s.to_str()).map(|s| s.to_owned())
}

/// The name of a sheet, given the stem that was found in the path of its
/// file: the stem, or the failure of a path without one.
pub fn sheet_name_from(path: &str, stem: Option<String>) -> (name: Result<String, SubparError>)
    ensures
        match stem {
            Some(s) => name == Ok::<String, SubparError>(s),
            None => name matches Err(e) && e@ == plain_error(
                Kind::InvalidLocation,
                msg_no_stem(path@),
            ),
        },
{
    match stem {
        Some(s) => Ok(s),
        None => Err(
            SubparError::new(
                Kind::InvalidLocation,
                concat3("csv::to_sheet_name file '", path, "' did not have a file stem"),
            ),
        ),
    }
}

/// Takes a path and returns the file stem to be used as the name of a sheet.
pub fn to_sheet_name(path: &str) -> (name: Result<String, SubparError>)
    ensures
        match sheet_name_of(path@) {
            Ok(stem) => name matches Ok(s) && s@ == stem && occurs_in(stem, path@),
            Err(failure) => name matches Err(e) && e@ == failure,
        },
{
    sheet_name_from(path, file_stem(path))
}

} // verus!
