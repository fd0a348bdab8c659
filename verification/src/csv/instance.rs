//! A workbook made of delimited text files: each file is one sheet.

use vstd::prelude::*;
use vstd::string::*;
use crate::base::instance::SubparWorkbook;
use crate::base::sheet::SheetAccessor;
use crate::errors::ErrorView;
use crate::errors::Kind;
use crate::errors::SubparError;
use crate::errors::plain_error;
use crate::helpers::sheet_name_of;
use crate::helpers::occurs_in;
use crate::helpers::to_sheet_name;
use crate::names::NameMap;
use crate::names::index_in;
use crate::names::lemma_index_absent;
use crate::text::concat3;
use crate::text::views_of;

verus! {

/// How the files of a workbook are written.
#[derive(Clone, Copy, PartialEq, Eq, PartialOrd, Ord, Hash, Debug, Structural)]
pub struct Options {
    /// The byte between two fields.
    pub delimiter: u8,
    /// Whether the first line of a file holds the headers.
    pub has_headers: bool,
}

impl Options {
    /// Fields parted by commas (44), under a line of headers.
    pub open spec fn usual() -> Options {
        Options { delimiter: 44, has_headers: true }
    }

    /// The usual options.
    pub fn new() -> (options: Options)
        ensures
            options == Options::usual(),
    {
        Options { delimiter: 44, has_headers: true }
    }
}

impl Default for Options {
    fn default() -> (options: Options)
        ensures
            options == Options::usual(),
    {
        Options::new()
    }
}

/// What the file system says of a path.
#[derive(Clone, PartialEq, Eq, Debug)]
pub struct ResolvedPath {
    /// The path, made absolute.
    pub absolute: String,
    /// Whether the path is a directory.
    pub is_dir: bool,
    /// The directory that the path lies in, where there is one.
    pub parent: Option<String>,
}

/// The identifier that `uuid` derives from a name within the namespace of
/// object identifiers.
pub uninterp spec fn oid_uuid_of(name: Seq<char>) -> u128;

/// The digit that writes `n` to the base of sixteen, in lower case.
pub open spec fn hex_char(n: int) -> char {
    if n == 0 {
        '0'
    } else if n == 1 {
        '1'
    } else if n == 2 {
        '2'
    } else if n == 3 {
        '3'
    } else if n == 4 {
        '4'
    } else if n == 5 {
        '5'
    } else if n == 6 {
        '6'
    } else if n == 7 {
        '7'
    } else if n == 8 {
        '8'
    } else if n == 9 {
        '9'
    } else if n == 10 {
        'a'
    } else if n == 11 {
        'b'
    } else if n == 12 {
        'c'
    } else if n == 13 {
        'd'
    } else if n == 14 {
        'e'
    } else {
        'f'
    }
}

/// The digit of `id` to the base of sixteen at place `k` of its 32, the
/// most significant being at place 0.
pub open spec fn hex_digit_at(id: u128, k: int) -> int {
    ((id >> (((31 - k) * 4) as u128)) & 0xf) as int
}

/// Which digit of an identifier stands at place `i` of its text, where
/// the four hyphens are not counted.
pub open spec fn digit_place(i: int) -> int {
    if i < 8 {
        i
    } else if i < 13 {
        i - 1
    } else if i < 18 {
        i - 2
    } else if i < 23 {
        i - 3
    } else {
        i - 4
    }
}

/// The text of an identifier: its 32 digits to the base of sixteen, in
/// lower case, in groups of 8, 4, 4, 4 and 12 with a hyphen between two.
pub open spec fn uuid_text_of(id: u128) -> Seq<char> {
    Seq::new(
        36,
        |i: int|
            if i == 8 || i == 13 || i == 18 || i == 23 {
                '-'
            } else {
                hex_char(hex_digit_at(id, digit_place(i)))
            },
    )
}

/// Calls `Uuid::new_v5` with `Uuid::NAMESPACE_OID` on the bytes of `name`:
/// the same name gives the same identifier, as a number.
#[verifier::external_body]
fn name_uuid(name: &str) -> (id: u128)
    ensures
        id == oid_uuid_of(name@),
{
    uuid::Uuid::new_v5(&uuid::Uuid::NAMESPACE_OID, name.as_bytes()).as_u128()
}

/// Calls `Display` of `Uuid` on the identifier with the number `id`: the
/// digits of the number to the base of sixteen, in lower case, with
/// hyphens after the digits 8, 12, 16 and 20.
#[verifier::external_body]
fn uuid_text(id: u128) -> (text: String)
    ensures
        text@ == uuid_text_of(id),
{
    uuid::Uuid::from_u128(id).to_string()
}

/// The name from which the identifier of the workbook in `directory` is
/// derived.
pub open spec fn id_key(directory: Seq<char>) -> Seq<char> {
    "csv|"@ + directory
}

/// The identifier of the workbook in the directory `path`.
pub fn path_to_id(path: &str) -> (id: u128)
    ensures
        id == oid_uuid_of(id_key(path@)),
{
    let mut key = "csv|".to_owned();
    key.append(path);
    name_uuid(key.as_str())
}

/// The message for a file that lies in no directory.
pub open spec fn msg_no_parent(path: Seq<char>) -> Seq<char> {
    "The file '"@ + path + "' does not lie in a directory"@
}

/// The message for a sheet that the workbook has no file for.
pub open spec fn msg_no_sheet_path(sheet: Seq<char>) -> Seq<char> {
    "Could not get a sheet path for "@ + sheet
}

/// The directory of a workbook and the files in it that are known at once:
/// a directory stands for itself and names no file; a file names itself
/// and stands in the directory above it.
pub open spec fn parsed_path(
    absolute: Seq<char>,
    is_dir: bool,
    parent: Option<Seq<char>>,
) -> Result<(Seq<char>, Seq<Seq<char>>), ErrorView> {
    if is_dir {
        Ok((absolute, Seq::empty()))
    } else {
        match parent {
            Some(directory) => Ok((directory, seq![absolute])),
            None => Err(plain_error(Kind::InvalidPath, msg_no_parent(absolute))),
        }
    }
}

/// The workbook of delimited text files at a path that the file system
/// has resolved: its identifier and name come from its directory, and the
/// one file that the path names is its one sheet, under the stem of the
/// file.
pub open spec fn csv_workbook_of(
    absolute: Seq<char>,
    is_dir: bool,
    parent: Option<Seq<char>>,
) -> Result<CsvWorkbookView, ErrorView> {
    match parsed_path(absolute, is_dir, parent) {
        Err(failure) => Err(failure),
        Ok(parts) => {
            let guid = oid_uuid_of(id_key(parts.0));
            let empty = CsvWorkbookView {
                guid,
                name: uuid_text_of(guid),
                directory: parts.0,
                sheets: Seq::empty(),
                files: Seq::empty(),
                options: Options::usual(),
            };
            if parts.1.len() == 0 {
                Ok(empty)
            } else {
                match sheet_name_of(parts.1[0]) {
                    Ok(stem) => Ok(
                        CsvWorkbookView { sheets: seq![stem], files: seq![parts.1[0]], ..empty },
                    ),
                    Err(failure) => Err(failure),
                }
            }
        },
    }
}

/// A workbook made of the delimited text files of one directory.
#[derive(Debug)]
pub struct CsvWorkbook {
    /// An identifier of the workbook, derived from its directory.
    guid: u128,
    /// A name for messages.
    name: String,
    /// The directory in which new sheets are written.
    directory: String,
    /// The file of each sheet, by the name of the sheet.
    sheets: NameMap<String>,
    /// How the files are written.
    options: Options,
}

/// A workbook of delimited text files, as plain values.
pub struct CsvWorkbookView {
    pub guid: u128,
    pub name: Seq<char>,
    pub directory: Seq<char>,
    /// The names of the sheets, in the order in which they became known.
    pub sheets: Seq<Seq<char>>,
    /// The file of each sheet, at the place of its name.
    pub files: Seq<Seq<char>>,
    pub options: Options,
}

impl View for CsvWorkbook {
    type V = CsvWorkbookView;

    closed spec fn view(&self) -> CsvWorkbookView {
        CsvWorkbookView {
            guid: self.guid,
            name: self.name@,
            directory: self.directory@,
            sheets: self.sheets.names(),
            files: views_of(self.sheets.items()),
            options: self.options,
        }
    }
}

impl CsvWorkbook {
    /// Tells the directory of a workbook from the files that are known at
    /// once.
    pub fn parse_path(resolved: ResolvedPath) -> (parts: Result<(String, Vec<String>), SubparError>)
        ensures
            match parsed_path(
                resolved.absolute@,
                resolved.is_dir,
                crate::errors::text_view(resolved.parent),
            ) {
                Ok(expected) => parts matches Ok(p) && p.0@ == expected.0 && views_of(p.1@)
                    == expected.1,
                Err(failure) => parts matches Err(e) && e@ == failure,
            },
    {
        if resolved.is_dir {
            let files: Vec<String> = Vec::new();
            assert(views_of(files@) =~= Seq::<Seq<char>>::empty());
            Ok((resolved.absolute, files))
        } else {
            match resolved.parent {
                Some(directory) => {
                    let mut files: Vec<String> = Vec::new();
                    files.push(resolved.absolute);
                    assert(views_of(files@) =~= seq![resolved.absolute@]);
                    Ok((directory, files))
                },
                None => Err(
                    SubparError::new(
                        Kind::InvalidPath,
                        concat3(
                            "The file '",
                            resolved.absolute.as_str(),
                            "' does not lie in a directory",
                        ),
                    ),
                ),
            }
        }
    }

    /// The workbook at a path that the file system has resolved. The
    /// workbook of a directory knows no sheet yet; the workbook of a file
    /// knows that file as its one sheet, under the name of the file without
    /// its extension.
    pub fn new(resolved: ResolvedPath) -> (workbook: Result<CsvWorkbook, SubparError>)
        ensures
            match csv_workbook_of(
                resolved.absolute@,
                resolved.is_dir,
                crate::errors::text_view(resolved.parent),
            ) {
                Ok(expected) => workbook matches Ok(w) && w@ == expected,
                Err(failure) => workbook matches Err(e) && e@ == failure,
            },
            workbook matches Ok(w) ==> forall|i: int|
                0 <= i < w@.sheets.len() ==> occurs_in(#[trigger] w@.sheets[i], w@.files[i]),
    {
        let (directory, files) = match CsvWorkbook::parse_path(resolved) {
            Ok(parts) => parts,
            Err(e) => {
                return Err(e);
            },
        };
        let guid = path_to_id(directory.as_str());
        let name = uuid_text(guid);
        let mut sheets: NameMap<String> = NameMap::new();
        assert(views_of(sheets.items()) =~= Seq::<Seq<char>>::empty());
        if files.len() == 1 {
            let key = match to_sheet_name(files[0].as_str()) {
                Ok(key) => key,
                Err(e) => {
                    return Err(e);
                },
            };
            let ghost items = sheets.items();
            let file = files[0].clone();
            sheets.put(key, file);
            assert(views_of(items.push(file)) =~= views_of(files@));
        }
        Ok(CsvWorkbook { guid, name, directory, sheets, options: Options::new() })
    }

    /// How many sheets the workbook knows. No two of them have one name.
    pub fn sheet_count(&self) -> (n: usize)
        ensures
            n == self@.sheets.len(),
            n == self@.files.len(),
            crate::names::distinct(self@.sheets),
    {
        self.sheets.len()
    }

    /// A copy of the workbook.
    pub fn duplicate(&self) -> (copy: CsvWorkbook)
        ensures
            copy@ == self@,
    {
        let n = self.sheets.len();
        let mut sheets: NameMap<String> = NameMap::new();
        assert(views_of(sheets.items()) =~= Seq::<Seq<char>>::empty());
        let mut i: usize = 0;
        while i < n
            invariant
                i <= n,
                n == self.sheets.names().len(),
                n == self.sheets.items().len(),
                crate::names::distinct(self.sheets.names()),
                sheets.names() == self.sheets.names().take(i as int),
                views_of(sheets.items()) == views_of(self.sheets.items()).take(i as int),
            decreases n - i,
        {
            let name = self.sheets.name_at(i).clone();
            let file = self.sheets.item_at(i).clone();
            let ghost items = sheets.items();
            proof {
                let before = self.sheets.names().take(i as int);
                assert forall|j: int| 0 <= j < before.len() implies before[j] != name@ by {
                    assert(before[j] == self.sheets.names()[j]);
                }
                lemma_index_absent(before, name@);
            }
            sheets.put(name, file);
            assert(sheets.names() =~= self.sheets.names().take(i + 1));
            assert(file@ == views_of(self.sheets.items())[i as int]);
            assert(views_of(items.push(file)) =~= views_of(items).push(file@));
            assert(views_of(items).push(file@) =~= views_of(self.sheets.items()).take(i + 1));
            i = i + 1;
        }
        assert(self.sheets.names().take(n as int) == self.sheets.names());
        assert(views_of(self.sheets.items()).take(n as int) == views_of(self.sheets.items()));
        CsvWorkbook {
            guid: self.guid,
            name: self.name.clone(),
            directory: self.directory.clone(),
            sheets,
            options: self.options,
        }
    }

    /// Sets the byte that parts two fields, and hands back a copy of the
    /// workbook as it then is.
    pub fn set_delimeter(&mut self, delimeter: u8) -> (copy: Result<CsvWorkbook, SubparError>)
        ensures
            final(self)@ == (CsvWorkbookView {
                options: Options { delimiter: delimeter, ..old(self)@.options },
                ..old(self)@
            }),
            copy matches Ok(c) && c@ == final(self)@,
    {
        self.options.delimiter = delimeter;
        Ok(self.duplicate())
    }

    /// The workbook under another name.
    pub fn set_name(self, name: String) -> (renamed: Result<CsvWorkbook, SubparError>)
        ensures
            renamed matches Ok(w) && w@ == (CsvWorkbookView { name: name@, ..self@ }),
    {
        Ok(
            CsvWorkbook {
                guid: self.guid,
                name,
                directory: self.directory,
                sheets: self.sheets,
                options: self.options,
            },
        )
    }
}

impl SubparWorkbook for CsvWorkbook {
    /// The identifier of the workbook.
    fn get_id(&self) -> (id: Result<u128, SubparError>)
        ensures
            id == Ok::<u128, SubparError>(self@.guid),
    {
        Ok(self.guid)
    }

    /// The name of the workbook for messages. Unless another was set, this
    /// is the identifier as text.
    fn get_name(&self) -> (name: Result<String, SubparError>)
        ensures
            name matches Ok(n) && n@ == self@.name,
    {
        Ok(self.name.clone())
    }

    /// The names of the sheets that the workbook knows.
    fn list_sheets(&self) -> (names: Result<Vec<String>, SubparError>)
        ensures
            names matches Ok(n) && views_of(n@) == self@.sheets,
    {
        let n = self.sheets.len();
        let mut names: Vec<String> = Vec::new();
        let mut i: usize = 0;
        while i < n
            invariant
                i <= n,
                n == self.sheets.names().len(),
                names@.len() == i,
                forall|j: int| 0 <= j < i ==> (#[trigger] names@[j])@ == self.sheets.names()[j],
            decreases n - i,
        {
            names.push(self.sheets.name_at(i).clone());
            i = i + 1;
        }
        assert(views_of(names@) =~= self.sheets.names());
        Ok(names)
    }

    /// How the sheet of the given name is reached.
    fn get_sheet_accessor(&self, sheet_name: &String) -> (accessor: Result<
        SheetAccessor,
        SubparError,
    >)
        ensures
            match index_in(self@.sheets, sheet_name@) {
                Some(i) => accessor matches Ok(SheetAccessor::Csv(path)) && path@ == self@.files[i],
                None => accessor matches Err(e) && e@ == plain_error(
                    Kind::NotFound,
                    msg_no_sheet_path(sheet_name@),
                ),
            },
    {
        proof {
            self.sheets.lemma_same_len();
            lemma_index_absent(self.sheets.names(), sheet_name@);
        }
        match self.sheets.get(sheet_name.as_str()) {
            Some(path) => Ok(SheetAccessor::Csv(path.clone())),
            None => {
                let mut message = "Could not get a sheet path for ".to_owned();
                message.append(sheet_name.as_str());
                Err(SubparError::new(Kind::NotFound, message))
            },
        }
    }
}

} // verus!
