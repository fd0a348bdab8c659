//! What a workbook knows of itself: its sheets, and whether one is in use.

use vstd::prelude::*;
use vstd::string::*;
use crate::base::instance::Mode;
use crate::base::sheet::Sheet;
use crate::base::sheet::SheetView;
use crate::errors::Kind;
use crate::errors::SubparError;
use crate::errors::plain_error;
use crate::names::NameMap;
use crate::names::index_in;
use crate::names::lemma_index_absent;
use crate::text::concat3;
use crate::text::concat5;
use crate::text::views_of;

verus! {

/// Whether a workbook is in use, and by what.
///
/// Tabular data is treated as brittle: one sheet of a workbook is worked on
/// at a time.
#[derive(Clone, PartialEq, Eq, Debug)]
pub enum ConnectionState {
    /// The workbook was made and not yet used.
    New,
    /// The named sheet is in use, in the given mode.
    Open(String, Mode),
    /// Nothing is in use, and anybody may take the workbook.
    Closed,
    /// Somebody else is using the workbook.
    Blocked,
    /// Waiting for the workbook to become free.
    Pending,
    /// The workbook cannot be used; the text says why.
    Error(String),
}

/// What a `ConnectionState` holds, as plain values.
pub enum ConnectionView {
    New,
    Open(Seq<char>, Mode),
    Closed,
    Blocked,
    Pending,
    Error(Seq<char>),
}

impl View for ConnectionState {
    type V = ConnectionView;

    open spec fn view(&self) -> ConnectionView {
        match self {
            ConnectionState::New => ConnectionView::New,
            ConnectionState::Open(sheet, mode) => ConnectionView::Open(sheet@, *mode),
            ConnectionState::Closed => ConnectionView::Closed,
            ConnectionState::Blocked => ConnectionView::Blocked,
            ConnectionState::Pending => ConnectionView::Pending,
            ConnectionState::Error(reason) => ConnectionView::Error(reason@),
        }
    }
}

impl Default for ConnectionState {
    fn default() -> (state: ConnectionState)
        ensures
            state@ == ConnectionView::New,
    {
        ConnectionState::New
    }
}

/// The message for a sheet that cannot be opened because another is in use.
pub open spec fn msg_busy(wanted: Seq<char>, active: Seq<char>) -> Seq<char> {
    "Sheet "@ + wanted + " cannot be opened because sheet "@ + active + " is already active"@
}

/// The message for a workbook that is blocked, waited for or broken.
pub open spec fn msg_cannot_open(wanted: Seq<char>) -> Seq<char> {
    "Sheet "@ + wanted + " cannot be opened: the workbook is not available"@
}

/// The message for a sheet that the workbook does not know.
pub open spec fn msg_no_sheet(name: Seq<char>) -> Seq<char> {
    "Could not find sheet '"@ + name + "'"@
}

/// The message for closing when nothing is open.
pub open spec fn msg_nothing_open() -> Seq<char> {
    "State tried to close the active sheet, but none were open"@
}

/// The message for a second sheet of one name.
pub open spec fn msg_duplicate_sheet(sheet: Seq<char>, workbook: Seq<char>) -> Seq<char> {
    "A sheet with the name "@ + sheet + " already exists in the workbook "@ + workbook
}

/// A workbook's knowledge of itself, as plain values.
pub struct StateView {
    pub name: Seq<char>,
    pub connection: ConnectionView,
    /// The names of the sheets, in the order in which they became known.
    pub sheets: Seq<Seq<char>>,
    /// What is known of each sheet, at the place of its name.
    pub stored: Seq<SheetView>,
}

/// What is known of each of `sheets`, in order.
pub open spec fn sheet_views(sheets: Seq<Sheet>) -> Seq<SheetView> {
    sheets.map_values(|s: Sheet| s@)
}

/// What is known of the sheet that is added under `name`: of the given
/// sheet what it holds, and without one only the name.
pub open spec fn added_sheet(name: Seq<char>, sheet: Option<Sheet>) -> SheetView {
    match sheet {
        Some(s) => s@,
        None => SheetView::fresh(name, None),
    }
}

/// What opening the sheet `wanted` does to a workbook: the failure, or the
/// connection after it.
pub open spec fn opened(state: StateView, wanted: Seq<char>, mode: Mode) -> Result<
    ConnectionView,
    crate::errors::ErrorView,
> {
    match state.connection {
        ConnectionView::Open(active, _) => Err(plain_error(Kind::Busy, msg_busy(wanted, active))),
        ConnectionView::New | ConnectionView::Closed => if index_in(state.sheets, wanted) is Some {
            Ok(ConnectionView::Open(wanted, mode))
        } else {
            Err(plain_error(Kind::NotFound, msg_no_sheet(wanted)))
        },
        _ => Err(plain_error(Kind::NotImplemented, msg_cannot_open(wanted))),
    }
}

/// The names, sheets and use of one workbook.
#[derive(Debug)]
pub struct State {
    /// A name of the workbook for messages.
    name: String,
    /// Whether a sheet is in use.
    connection: ConnectionState,
    /// All the sheets that are known, by name.
    sheets: NameMap<Sheet>,
}

impl View for State {
    type V = StateView;

    closed spec fn view(&self) -> StateView {
        StateView {
            name: self.name@,
            connection: self.connection@,
            sheets: self.sheets.names(),
            stored: sheet_views(self.sheets.items()),
        }
    }
}

impl State {
    /// What a workbook that was just made knows: its name.
    pub fn new(name: String) -> (state: State)
        ensures
            state@ == (StateView {
                name: name@,
                connection: ConnectionView::New,
                sheets: Seq::empty(),
                stored: Seq::empty(),
            }),
    {
        let state = State { name, connection: ConnectionState::New, sheets: NameMap::new() };
        assert(state@.stored =~= Seq::empty());
        state
    }

    /// Takes the sheet `sheet_name` into use. Only a workbook of which
    /// nothing is in use can open a sheet, and only one that it knows.
    pub fn open(&mut self, sheet_name: &String, mode: Mode) -> (done: Result<(), SubparError>)
        ensures
            final(self)@.name == old(self)@.name,
            final(self)@.sheets == old(self)@.sheets,
            final(self)@.stored == old(self)@.stored,
            match opened(old(self)@, sheet_name@, mode) {
                Ok(connection) => done is Ok && final(self)@.connection == connection,
                Err(failure) => done matches Err(e) && e@ == failure && final(self)@ == old(self)@,
            },
    {
        match &self.connection {
            ConnectionState::New => {},
            ConnectionState::Closed => {},
            ConnectionState::Open(active, _) => {
                return Err(
                    SubparError::new(
                        Kind::Busy,
                        concat5(
                            "Sheet ",
                            sheet_name.as_str(),
                            " cannot be opened because sheet ",
                            active.as_str(),
                            " is already active",
                        ),
                    ),
                );
            },
            _ => {
                return Err(
                    SubparError::new(
                        Kind::NotImplemented,
                        concat3(
                            "Sheet ",
                            sheet_name.as_str(),
                            " cannot be opened: the workbook is not available",
                        ),
                    ),
                );
            },
        }
        match self.get_sheet(sheet_name) {
            Ok(_) => {},
            Err(e) => {
                return Err(e);
            },
        }
        self.connection = ConnectionState::Open(sheet_name.clone(), mode);
        Ok(())
    }

    /// Gives up the sheet that is in use.
    pub fn close(&mut self) -> (done: Result<(), SubparError>)
        ensures
            final(self)@.name == old(self)@.name,
            final(self)@.sheets == old(self)@.sheets,
            final(self)@.stored == old(self)@.stored,
            match old(self)@.connection {
                ConnectionView::Open(_, _) => done is Ok && final(self)@.connection
                    == ConnectionView::Closed,
                _ => done matches Err(e) && e@ == plain_error(Kind::Impossible, msg_nothing_open())
                    && final(self)@ == old(self)@,
            },
    {
        match self.connection {
            ConnectionState::Open(_, _) => {
                self.connection = ConnectionState::Closed;
                Ok(())
            },
            _ => Err(
                SubparError::of(
                    Kind::Impossible,
                    "State tried to close the active sheet, but none were open",
                ),
            ),
        }
    }

    /// The names of the sheets that are known, in the order in which they
    /// became known.
    pub fn list_sheets(&self) -> (names: Vec<String>)
        ensures
            views_of(names@) == self@.sheets,
    {
        let n = self.sheets.len();
        let mut names: Vec<String> = Vec::new();
        let mut i: usize = 0;
        while i < n
            invariant
                i <= n,
                n == self.sheets.names().len(),
                names@.len() == i,
                forall|j: int| 0 <= j < i ==> (#[trigger] names@[j])@ == self.sheets.names()[j],
            decreases n - i,
        {
            names.push(self.sheets.name_at(i).clone());
            i = i + 1;
        }
        assert(views_of(names@) =~= self.sheets.names());
        names
    }

    /// Lets the workbook know of a sheet. Without a sheet, one is made that
    /// has the name and nothing else. A sheet whose name is known already
    /// takes the place of the one that was known, and the call fails to say
    /// so.
    pub fn add_sheet(&mut self, name: String, sheet: Option<Sheet>) -> (added: Result<
        (),
        SubparError,
    >)
        ensures
            final(self)@.name == old(self)@.name,
            final(self)@.connection == old(self)@.connection,
            final(self)@.sheets.len() == final(self)@.stored.len(),
            match index_in(old(self)@.sheets, name@) {
                None => {
                    &&& added is Ok
                    &&& final(self)@.sheets == old(self)@.sheets.push(name@)
                    &&& final(self)@.stored == old(self)@.stored.push(added_sheet(name@, sheet))
                },
                Some(i) => {
                    &&& added matches Err(e) && e@ == plain_error(
                        Kind::DuplicateKey,
                        msg_duplicate_sheet(name@, old(self)@.name),
                    )
                    &&& final(self)@.sheets == old(self)@.sheets
                    &&& final(self)@.stored == old(self)@.stored.update(
                        i,
                        added_sheet(name@, sheet),
                    )
                },
            },
    {
        let sheet = match sheet {
            Some(s) => s,
            None => Sheet::new(&name, None),
        };
        let mut message = concat3(
            "A sheet with the name ",
            name.as_str(),
            " already exists in the workbook ",
        );
        message.append(self.name.as_str());
        let ghost items = self.sheets.items();
        proof {
            self.sheets.lemma_same_len();
            lemma_index_absent(self.sheets.names(), name@);
        }
        let replaced = self.sheets.put(name, sheet);
        proof {
            self.sheets.lemma_same_len();
            match index_in(old(self)@.sheets, name@) {
                Some(i) => {
                    assert(sheet_views(items.update(i, sheet)) =~= sheet_views(items).update(
                        i,
                        sheet@,
                    ));
                },
                None => {
                    assert(sheet_views(items.push(sheet)) =~= sheet_views(items).push(sheet@));
                },
            }
        }
        if replaced {
            Err(SubparError::new(Kind::DuplicateKey, message))
        } else {
            Ok(())
        }
    }

    /// The sheet of the given name.
    pub fn get_sheet(&self, sheet_name: &String) -> (sheet: Result<&Sheet, SubparError>)
        ensures
            match index_in(self@.sheets, sheet_name@) {
                Some(i) => sheet matches Ok(s) && i < self@.stored.len() && s@ == self@.stored[i],
                None => sheet matches Err(e) && e@ == plain_error(
                    Kind::NotFound,
                    msg_no_sheet(sheet_name@),
                ),
            },
    {
        proof {
            self.sheets.lemma_same_len();
            lemma_index_absent(self.sheets.names(), sheet_name@);
        }
        match self.sheets.get(sheet_name.as_str()) {
            Some(sheet) => Ok(sheet),
            None => Err(
                SubparError::new(
                    Kind::NotFound,
                    concat3("Could not find sheet '", sheet_name.as_str(), "'"),
                ),
            ),
        }
    }
}

} // verus!
