//! A workbook: a set of sheets that belong together.

use vstd::prelude::*;
use vstd::string::*;
use crate::base::instance::Mode;
use crate::base::instance::SubparWorkbook;
use crate::base::row::RowTemplate;
use crate::base::row::SubparRow;
use crate::base::sheet::SheetAccessor;
use crate::base::sheet::SheetView;
use crate::base::state::ConnectionView;
use crate::base::state::State;
use crate::base::state::StateView;
use crate::base::state::msg_duplicate_sheet;
use crate::base::state::opened;
use crate::batch::ErrorGroup;
use crate::batch::SplitResult;
use crate::csv::instance::CsvWorkbook;
use crate::csv::instance::CsvWorkbookView;
use crate::csv::instance::ResolvedPath;
use crate::csv::instance::csv_workbook_of;
use crate::csv::io::reader::CsvReader;
use crate::csv::io::reader::FileOptions;
use crate::csv::io::reader::Options;
use crate::csv::io::reader::header_view;
use crate::csv::io::reader::read_of_source;
use crate::csv::io::reader::strict;
use crate::errors::cause_views;
use crate::errors::Cause;
use crate::errors::CauseView;
use crate::errors::ErrorView;
use crate::errors::Kind;
use crate::errors::SubparError;
use crate::errors::error_views;
use crate::errors::plain_error;
use crate::errors::text_view;
use crate::names::distinct;
use crate::names::index_in;
use crate::names::lemma_index_absent;
use crate::names::lemma_index_found;
use crate::text::concat3;
use crate::text::views_of;

verus! {

/// What a workbook is made from.
#[derive(Debug)]
pub enum BuildParams<W> {
    /// A delimited text or a directory of them, at a path that the file
    /// system has resolved.
    CSV(ResolvedPath),
    /// A workbook that is there already and needs wrapping.
    Built(W),
}

/// A workbook, as plain values.
pub struct WorkbookView<W> {
    pub guid: u128,
    /// The workbook as its kind keeps it.
    pub instance: W,
    /// What the workbook knows of its sheets and of its use.
    pub state: StateView,
}

/// A workbook of any kind, with what it knows of its sheets.
#[derive(Debug)]
pub struct Workbook<W: SubparWorkbook> {
    guid: u128,
    /// The workbook as its kind keeps it.
    instance: W,
    /// What the workbook knows of its sheets and of its use.
    state: State,
}

impl<W: SubparWorkbook> View for Workbook<W> {
    type V = WorkbookView<W>;

    closed spec fn view(&self) -> WorkbookView<W> {
        WorkbookView { guid: self.guid, instance: self.instance, state: self.state@ }
    }
}

/// The message for a place without any sheet.
pub open spec fn msg_no_sheets(path: Seq<char>) -> Seq<char> {
    "read_csv could not find any sheets at "@ + path
}

/// The message for a place with more than one sheet.
pub open spec fn msg_many_sheets(path: Seq<char>) -> Seq<char> {
    "read_csv expects one sheet and received multiple for path "@ + path
}

/// The message for rows that cannot be written yet.
pub open spec fn msg_no_dump() -> Seq<char> {
    "'Workbook::dump' is not implemented yet"@
}

/// The message of a workbook that names a sheet twice.
pub open spec fn msg_sheets_failed() -> Seq<char> {
    "Failed to add all the sheets"@
}

/// Those of `names` that repeat no earlier one, in order.
pub open spec fn first_names(names: Seq<Seq<char>>) -> Seq<Seq<char>>
    decreases names.len(),
{
    if names.len() == 0 {
        Seq::empty()
    } else {
        let before = first_names(names.drop_last());
        if index_in(before, names.last()) is None {
            before.push(names.last())
        } else {
            before
        }
    }
}

/// One failure for each of `names` that repeats an earlier one, in order.
pub open spec fn repeated_sheets(workbook: Seq<char>, names: Seq<Seq<char>>) -> Seq<CauseView>
    decreases names.len(),
{
    if names.len() == 0 {
        Seq::empty()
    } else {
        let before = repeated_sheets(workbook, names.drop_last());
        if index_in(first_names(names.drop_last()), names.last()) is None {
            before
        } else {
            before.push(
                CauseView {
                    kind: Kind::DuplicateKey,
                    message: msg_duplicate_sheet(names.last(), workbook),
                    column: None,
                },
            )
        }
    }
}

/// What is known of each of the sheets `names` when only their names are
/// known.
pub open spec fn fresh_sheets(names: Seq<Seq<char>>) -> Seq<SheetView> {
    names.map_values(|name: Seq<char>| SheetView::fresh(name, None))
}

/// The workbook that wraps `instance`, given the name, the identifier and
/// the sheets that the instance gave: nothing of it is in use, and it
/// knows each sheet by its name. Where the instance names a sheet twice,
/// one failure stands for every name that repeats another.
pub open spec fn assembled<W>(
    instance: W,
    name: Seq<char>,
    guid: u128,
    sheets: Seq<Seq<char>>,
) -> Result<WorkbookView<W>, ErrorView> {
    if repeated_sheets(name, sheets).len() == 0 {
        Ok(
            WorkbookView {
                guid,
                instance,
                state: StateView {
                    name,
                    connection: ConnectionView::New,
                    sheets: first_names(sheets),
                    stored: fresh_sheets(first_names(sheets)),
                },
            },
        )
    } else {
        Err(
            ErrorView {
                kind: Kind::ErrorList,
                message: msg_sheets_failed(),
                column: None,
                line: None,
                causes: repeated_sheets(name, sheets),
            },
        )
    }
}

/// What a workbook or its failure holds, as plain values.
pub open spec fn workbook_view<W: SubparWorkbook>(
    workbook: Result<Workbook<W>, SubparError>,
) -> Result<WorkbookView<W>, ErrorView> {
    match workbook {
        Ok(w) => Ok(w@),
        Err(e) => Err(e@),
    }
}

/// Whether `workbook` is what wrapping `instance` gives: the instance is
/// asked for its name, then for its identifier, then for its sheets; the
/// first failure of the three fails the wrapping, and else the answers
/// are assembled.
pub open spec fn wraps<W: SubparWorkbook>(
    instance: W,
    workbook: Result<Workbook<W>, SubparError>,
) -> bool {
    exists|name: Result<String, SubparError>|
        #[trigger] call_ensures(W::get_name, (&instance,), name) && match name {
            Err(e) => workbook_view(workbook) == Err::<WorkbookView<W>, ErrorView>(e@),
            Ok(n) => exists|guid: Result<u128, SubparError>|
                #[trigger] call_ensures(W::get_id, (&instance,), guid) && match guid {
                    Err(e) => workbook_view(workbook) == Err::<WorkbookView<W>, ErrorView>(e@),
                    Ok(id) => exists|sheets: Result<Vec<String>, SubparError>|
                        #[trigger] call_ensures(W::list_sheets, (&instance,), sheets)
                            && match sheets {
                            Err(e) => workbook_view(workbook) == Err::<
                                WorkbookView<W>,
                                ErrorView,
                            >(e@),
                            Ok(s) => workbook_view(workbook) == assembled(
                                instance,
                                n@,
                                id,
                                views_of(s@),
                            ),
                        },
                },
        }
}

/// The workbook that wraps a workbook of delimited text files: it has the
/// identifier, the name and the sheets of the instance, and nothing of it
/// is in use.
pub open spec fn wrapped(workbook: WorkbookView<CsvWorkbook>, instance: CsvWorkbookView) -> bool {
    &&& workbook.guid == instance.guid
    &&& workbook.instance@ == instance
    &&& workbook.state == (StateView {
        name: instance.name,
        connection: ConnectionView::New,
        sheets: instance.sheets,
        stored: fresh_sheets(instance.sheets),
    })
}

/// The message of a delimited text that was not read whole.
pub open spec fn msg_csv_failed(path: Seq<char>) -> Seq<char> {
    "Failed to read the CSV file at '"@ + path + "'"@
}

/// The options that a workbook reads its sheets with.
pub open spec fn reading_options() -> Options {
    Options { file_options: FileOptions::usual(), keep_unknown: false }
}

/// The group that holds the one failure `failure`, under `context`.
pub open spec fn fails_with<T>(
    rows: Result<Vec<T>, ErrorGroup>,
    context: Seq<char>,
    failure: ErrorView,
) -> bool {
    rows matches Err(group) && group.context@ == context && error_views(group.errors@)
        == seq![failure]
}

/// Whether `rows` is what reading the sheet behind `accessor` gives: the
/// failure of an instance that cannot reach the sheet, and else what the
/// file at the place of the sheet holds, read by the template of `Row`.
pub open spec fn sheet_read<Row: SubparRow>(
    accessor: Result<SheetAccessor, SubparError>,
    header_line: Option<Seq<Seq<char>>>,
    records: Seq<Result<Vec<String>, String>>,
    rows: Result<SplitResult<Row>, SubparError>,
) -> bool {
    match accessor {
        Err(e) => rows matches Err(kept) && kept@ == e@,
        Ok(SheetAccessor::Csv(path)) => exists|template: RowTemplate|
            #[trigger] call_ensures(Row::get_template, (), template) && read_of_source::<Row>(
                path@,
                reading_options(),
                header_line,
                template@,
                records,
                rows,
            ),
    }
}

/// Names of which none repeats another are all first, and none is refused.
pub proof fn lemma_distinct_sheets(workbook: Seq<char>, names: Seq<Seq<char>>)
    requires
        distinct(names),
    ensures
        first_names(names) == names,
        repeated_sheets(workbook, names).len() == 0,
    decreases names.len(),
{
    if names.len() > 0 {
        let before = names.drop_last();
        lemma_distinct_sheets(workbook, before);
        assert forall|j: int| 0 <= j < before.len() implies before[j] != names.last() by {
            assert(before[j] == names[j]);
        }
        lemma_index_absent(before, names.last());
        assert(first_names(names) =~= names);
    } else {
        assert(first_names(names) =~= names);
    }
}

impl<W: SubparWorkbook> Workbook<W> {
    /// Assembles the workbook that wraps `instance` from what the instance
    /// gave: its name, its identifier and the names of its sheets. The
    /// state is let know of each sheet; every name that repeats another is
    /// refused, and all that were come back in one failure.
    pub fn assemble(instance: W, name: String, guid: u128, sheets: Vec<String>) -> (workbook: Result<
        Workbook<W>,
        SubparError,
    >)
        ensures
            workbook_view(workbook) == assembled(instance, name@, guid, views_of(sheets@)),
    {
        let ghost title = name@;
        let ghost all = views_of(sheets@);
        let mut state = State::new(name);
        let mut failures: Vec<Cause> = Vec::new();
        assert(cause_views(failures@) =~= Seq::<CauseView>::empty());
        assert(state@.stored =~= fresh_sheets(first_names(all.take(0))));
        let mut i: usize = 0;
        while i < sheets.len()
            invariant
                i <= sheets.len(),
                all == views_of(sheets@),
                state@ == (StateView {
                    name: title,
                    connection: ConnectionView::New,
                    sheets: first_names(all.take(i as int)),
                    stored: fresh_sheets(first_names(all.take(i as int))),
                }),
                cause_views(failures@) == repeated_sheets(title, all.take(i as int)),
            decreases sheets.len() - i,
        {
            proof {
                assert(all.take(i + 1).drop_last() == all.take(i as int));
                assert(all.take(i + 1).last() == sheets@[i as int]@);
                lemma_index_absent(first_names(all.take(i as int)), sheets@[i as int]@);
            }
            let ghost known = first_names(all.take(i as int));
            let ghost before = failures@;
            match state.add_sheet(sheets[i].clone(), None) {
                Ok(_) => {
                    assert(fresh_sheets(known.push(all[i as int])) =~= fresh_sheets(known).push(
                        SheetView::fresh(all[i as int], None),
                    ));
                },
                Err(e) => {
                    let cause = e.into_cause();
                    failures.push(cause);
                    assert(cause_views(failures@) =~= cause_views(before).push(cause@));
                    assert(state@.stored =~= fresh_sheets(known));
                },
            }
            i = i + 1;
        }
        assert(all.take(i as int) == all);
        if failures.len() == 0 {
            Ok(Workbook { guid, instance, state })
        } else {
            Err(SubparError::group("Failed to add all the sheets", failures))
        }
    }

    /// Wraps the workbook `instance`: takes its name and its identifier,
    /// and lets the state know of each of its sheets.
    pub fn from_instance(instance: W) -> (workbook: Result<Workbook<W>, SubparError>)
        ensures
            wraps(instance, workbook),
    {
        let name = instance.get_name();
        let ghost name_given = name;
        let name = match name {
            Ok(name) => name,
            Err(e) => {
                let workbook = Err(e);
                assert(call_ensures(W::get_name, (&instance,), name_given));
                assert(wraps(instance, workbook));
                return workbook;
            },
        };
        let guid = instance.get_id();
        let ghost guid_given = guid;
        let guid = match guid {
            Ok(id) => id,
            Err(e) => {
                let workbook = Err(e);
                assert(call_ensures(W::get_name, (&instance,), name_given) && call_ensures(
                    W::get_id,
                    (&instance,),
                    guid_given,
                ));
                assert(wraps(instance, workbook));
                return workbook;
            },
        };
        let sheets = instance.list_sheets();
        let ghost sheets_given = sheets;
        let workbook = match sheets {
            Ok(sheets) => Workbook::assemble(instance, name, guid, sheets),
            Err(e) => Err(e),
        };
        assert(call_ensures(W::get_name, (&instance,), name_given) && call_ensures(
            W::get_id,
            (&instance,),
            guid_given,
        ) && call_ensures(W::list_sheets, (&instance,), sheets_given));
        assert(wraps(instance, workbook));
        workbook
    }

    /// Lets the workbook know of one sheet more, of which only the name is
    /// known. A sheet whose name is known already takes the place of the one
    /// that was known, and the call fails to say so.
    pub fn add_sheet(&mut self, name: String) -> (added: Result<(), SubparError>)
        ensures
            final(self)@.guid == old(self)@.guid,
            final(self)@.instance == old(self)@.instance,
            final(self)@.state.name == old(self)@.state.name,
            final(self)@.state.connection == old(self)@.state.connection,
            match index_in(old(self)@.state.sheets, name@) {
                None => {
                    &&& added is Ok
                    &&& final(self)@.state.sheets == old(self)@.state.sheets.push(name@)
                    &&& final(self)@.state.stored == old(self)@.state.stored.push(
                        SheetView::fresh(name@, None),
                    )
                },
                Some(i) => {
                    &&& added matches Err(e) && e@ == plain_error(
                        Kind::DuplicateKey,
                        msg_duplicate_sheet(name@, old(self)@.state.name),
                    )
                    &&& final(self)@.state.sheets == old(self)@.state.sheets
                    &&& final(self)@.state.stored == old(self)@.state.stored.update(
                        i,
                        SheetView::fresh(name@, None),
                    )
                },
            },
    {
        self.state.add_sheet(name, None)
    }

    /// The names of the sheets that are known.
    pub fn list_sheets(&mut self) -> (names: Result<Vec<String>, SubparError>)
        ensures
            final(self)@ == old(self)@,
            names matches Ok(n) && views_of(n@) == old(self)@.state.sheets,
    {
        Ok(self.state.list_sheets())
    }

    /// The one sheet of a workbook that is read as a single table: a
    /// workbook without sheets has nothing to read, and one with several
    /// does not say which is meant.
    pub fn single_sheet(&mut self, path: &str) -> (sheet: Result<String, SubparError>)
        ensures
            final(self)@ == old(self)@,
            match sheet {
                Ok(name) => old(self)@.state.sheets.len() == 1 && name@ == old(self)@.state.sheets[0],
                Err(e) => if old(self)@.state.sheets.len() == 0 {
                    e@ == plain_error(Kind::NotFound, msg_no_sheets(path@))
                } else {
                    old(self)@.state.sheets.len() > 1 && e@ == plain_error(
                        Kind::AmbiguousResult,
                        msg_many_sheets(path@),
                    )
                },
            },
    {
        let mut sheets = self.state.list_sheets();
        if sheets.len() == 0 {
            let mut message = "read_csv could not find any sheets at ".to_owned();
            message.append(path);
            Err(SubparError::new(Kind::NotFound, message))
        } else if sheets.len() == 1 {
            let name = sheets[0].clone();
            Ok(name)
        } else {
            let mut message =
                "read_csv expects one sheet and received multiple for path ".to_owned();
            message.append(path);
            Err(SubparError::new(Kind::AmbiguousResult, message))
        }
    }

    /// Reads the whole sheet `sheet_name` into records of type `Row`.
    /// `header_line` and `records` are what was read from the file of the
    /// sheet. The sheet is taken into use for reading, and stays in use;
    /// it is read by the template of `Row` with the usual options, and
    /// every outcome is kept, on its side.
    pub fn slurp<Row: SubparRow>(
        &mut self,
        sheet_name: &String,
        header_line: Option<Vec<String>>,
        records: Vec<Result<Vec<String>, String>>,
    ) -> (rows: Result<SplitResult<Row>, SubparError>)
        ensures
            final(self)@.guid == old(self)@.guid,
            final(self)@.instance == old(self)@.instance,
            final(self)@.state.name == old(self)@.state.name,
            final(self)@.state.sheets == old(self)@.state.sheets,
            final(self)@.state.stored == old(self)@.state.stored,
            match opened(old(self)@.state, sheet_name@, Mode::Read) {
                Err(failure) => rows matches Err(e) && e@ == failure && final(self)@ == old(self)@,
                Ok(connection) => final(self)@.state.connection == connection && exists|
                    accessor: Result<SheetAccessor, SubparError>,
                |
                    #[trigger] call_ensures(
                        W::get_sheet_accessor,
                        (&old(self)@.instance, sheet_name),
                        accessor,
                    ) && sheet_read::<Row>(accessor, header_view(header_line), records@, rows),
            },
            rows matches Ok(split) ==> split.items@.len() + split.errors@.len() == records@.len(),
    {
        match self.state.open(sheet_name, Mode::Read) {
            Ok(_) => {},
            Err(e) => {
                return Err(e);
            },
        }
        let accessor = self.instance.get_sheet_accessor(sheet_name);
        let ghost given = accessor;
        let rows = match accessor {
            Ok(SheetAccessor::Csv(path)) => CsvReader::read_all::<Row>(
                path.as_str(),
                header_line,
                records,
                None,
            ),
            Err(e) => Err(e),
        };
        assert(call_ensures(W::get_sheet_accessor, (&self.instance, sheet_name), given)
            && sheet_read::<Row>(given, header_view(header_line), records@, rows));
        rows
    }

    /// Writes rows to a sheet in place of what is there. Nothing can be
    /// written yet: the call says so and changes nothing.
    pub fn dump<Row: SubparRow>(&mut self, _sheet_name: String, _data: Vec<Row>) -> (done: Result<
        (),
        SubparError,
    >)
        ensures
            final(self)@ == old(self)@,
            done matches Err(e) && e@ == plain_error(Kind::NotImplemented, msg_no_dump()),
    {
        Err(SubparError::of(Kind::NotImplemented, "'Workbook::dump' is not implemented yet"))
    }

}

impl Workbook<CsvWorkbook> {
    /// Makes a workbook: of a path, the workbook of delimited text files
    /// at that path with the sheet that the path names; of a workbook that
    /// is there already, that workbook wrapped. Nothing is in use yet.
    pub fn new(params: BuildParams<CsvWorkbook>) -> (workbook: Result<
        Workbook<CsvWorkbook>,
        SubparError,
    >)
        ensures
            match params {
                BuildParams::Built(instance) => workbook matches Ok(w) && wrapped(w@, instance@),
                BuildParams::CSV(resolved) => match csv_workbook_of(
                    resolved.absolute@,
                    resolved.is_dir,
                    text_view(resolved.parent),
                ) {
                    Ok(instance) => workbook matches Ok(w) && wrapped(w@, instance),
                    Err(failure) => workbook matches Err(e) && e@ == failure,
                },
            },
    {
        let instance = match params {
            BuildParams::CSV(resolved) => match CsvWorkbook::new(resolved) {
                Ok(instance) => instance,
                Err(e) => {
                    return Err(e);
                },
            },
            BuildParams::Built(instance) => instance,
        };
        // Counting the sheets recalls that no two of them share a name, so
        // that none is refused.
        let _ = instance.sheet_count();
        proof {
            lemma_distinct_sheets(instance@.name, instance@.sheets);
        }
        Workbook::from_instance(instance)
    }

    /// Reads a delimited text that was found at a resolved path into
    /// records of type `Row`: the one sheet of the workbook at that path is
    /// read by the template of `Row`. Any failure fails the whole: then all
    /// the failures come back in place of the records. Where the path names
    /// no file that can be a sheet, the one failure that says so comes back.
    pub fn read_csv<Row: SubparRow>(
        resolved: ResolvedPath,
        header_line: Option<Vec<String>>,
        records: Vec<Result<Vec<String>, String>>,
    ) -> (rows: Result<Vec<Row>, ErrorGroup>)
        ensures
            match csv_workbook_of(
                resolved.absolute@,
                resolved.is_dir,
                text_view(resolved.parent),
            ) {
                Err(failure) => fails_with(rows, msg_csv_failed(resolved.absolute@), failure),
                Ok(instance) => if instance.sheets.len() == 0 {
                    fails_with(
                        rows,
                        msg_csv_failed(resolved.absolute@),
                        plain_error(Kind::NotFound, msg_no_sheets(resolved.absolute@)),
                    )
                } else {
                    exists|template: RowTemplate, all: Result<SplitResult<Row>, SubparError>|
                        {
                            &&& #[trigger] read_of_source::<Row>(
                                instance.files[0],
                                reading_options(),
                                header_view(header_line),
                                template@,
                                records@,
                                all,
                            )
                            &&& call_ensures(Row::get_template, (), template)
                            &&& strict(all, msg_csv_failed(resolved.absolute@), rows)
                        }
                },
            },
            match rows {
                Ok(items) => items@.len() == records@.len(),
                Err(group) => 0 < group.errors@.len() && (group.errors@.len() <= records@.len()
                    || group.errors@.len() == 1),
            },
    {
        let path = resolved.absolute.clone();
        let context = concat3("Failed to read the CSV file at '", path.as_str(), "'");
        let mut workbook = match Workbook::new(BuildParams::CSV(resolved)) {
            Ok(workbook) => workbook,
            Err(e) => {
                return Err(one_failure(context, e));
            },
        };
        let ghost instance = workbook@.instance@;
        let ghost kept = workbook@.instance;
        let sheet_name = match workbook.single_sheet(path.as_str()) {
            Ok(name) => name,
            Err(e) => {
                return Err(one_failure(context, e));
            },
        };
        proof {
            lemma_index_found(instance.sheets, sheet_name@, 0);
        }
        let all = workbook.slurp::<Row>(&sheet_name, header_line, records);
        let ghost read = all;
        let rows = match all {
            Ok(split) => split.as_result(context.as_str()),
            Err(e) => Err(one_failure(context, e)),
        };
        proof {
            let accessor = choose|accessor: Result<SheetAccessor, SubparError>|
                #[trigger] call_ensures(
                    CsvWorkbook::get_sheet_accessor,
                    (&kept, &sheet_name),
                    accessor,
                ) && sheet_read::<Row>(accessor, header_view(header_line), records@, read);
            assert(accessor matches Ok(SheetAccessor::Csv(p)) && p@ == instance.files[0]);
            let template = choose|template: RowTemplate|
                #[trigger] call_ensures(Row::get_template, (), template) && read_of_source::<Row>(
                    instance.files[0],
                    reading_options(),
                    header_view(header_line),
                    template@,
                    records@,
                    read,
                );
            assert(read_of_source::<Row>(
                instance.files[0],
                reading_options(),
                header_view(header_line),
                template@,
                records@,
                read,
            ));
            assert(strict(read, msg_csv_failed(resolved.absolute@), rows));
        }
        rows
    }
}

/// The group that holds the one failure `e`.
fn one_failure(context: String, e: SubparError) -> (group: ErrorGroup)
    ensures
        group.context == context,
        group.errors@ == seq![e],
        error_views(group.errors@) == seq![e@],
{
    let mut errors: Vec<SubparError> = Vec::new();
    errors.push(e);
    assert(errors@ =~= seq![e]);
    assert(error_views(errors@) =~= seq![e@]);
    ErrorGroup { context, errors }
}

} // verus!
