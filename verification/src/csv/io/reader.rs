//! The reader of a delimited text: what it decides once the lines are at
//! hand.
//!
//! Whoever opens the source hands over its header line and then its records,
//! one by one; the reader settles the template, names the fields of each
//! record and makes the row.

use vstd::prelude::*;
use vstd::string::*;
use crate::base::cell::Cell;
use crate::base::cell::CellValue;
use crate::base::cell::CellView;
use crate::base::cell::NamedCellView;
use crate::base::row::ColumnView;
use crate::base::row::Row;
use crate::base::row::RowTemplate;
use crate::base::row::RowView;
use crate::base::row::SubparRow;
use crate::base::row::TemplateView;
use crate::base::row::cell_views;
use crate::base::row::missing_of;
use crate::base::row::msg_missing_headers;
use crate::base::row::msg_no_headers;
use crate::base::row::msg_no_validation;
use crate::base::row::row_of;
use crate::base::row::row_outcome_view;
use crate::base::row::template_of_headers;
use crate::base::row::usable_names;
use crate::batch::ErrorGroup;
use crate::batch::SplitResult;
use crate::batch::failures;
use crate::batch::nothing_is_dropped;
use crate::batch::successes;
use crate::errors::ErrorView;
use crate::errors::Kind;
use crate::errors::SubparError;
use crate::errors::error_views;
use crate::errors::plain_error;
use crate::names::NameMap;
use crate::names::index_in;
use crate::names::lemma_index_absent;
use crate::number::integer_text;
use crate::number::unsigned_to_text;
use crate::text::concat3;
use crate::text::concat5;
use crate::text::views_of;

verus! {

/// How the text is cut into lines and fields.
#[derive(Clone, Copy, PartialEq, Eq, Debug, Structural)]
pub struct FileOptions {
    /// Use ASCII delimited text.
    pub is_ascii: bool,
    /// The capacity of the buffer to read with.
    pub buffer_size: Option<usize>,
    /// Lines that begin with this byte are passed over.
    pub comment: Option<u8>,
    /// The byte between two fields. A comma (44) unless set.
    pub delimiter: u8,
    /// Whether a doubled quote stands for one.
    pub double_quotes: bool,
    /// The byte that takes the meaning from the one after it. A backslash
    /// (92) unless set.
    pub escape: u8,
    /// Whether the number of fields may change from line to line.
    pub flexible: bool,
    /// Whether the first line holds the headers.
    pub has_headers: bool,
    /// The quoting byte. A double quote (34) unless set.
    pub quote: u8,
    /// Whether quotes are looked at.
    pub quoting: bool,
    /// The byte that ends a line. `None` stands for any usual line end.
    pub terminator: Option<u8>,
    /// Whether blanks around a field are cut off.
    pub trim: bool,
}

impl FileOptions {
    /// The options of a plain comma-separated text with a header line.
    pub open spec fn usual() -> FileOptions {
        FileOptions {
            is_ascii: false,
            buffer_size: None,
            comment: None,
            delimiter: 44,
            double_quotes: true,
            escape: 92,
            flexible: false,
            has_headers: true,
            quote: 34,
            quoting: true,
            terminator: None,
            trim: true,
        }
    }
}

impl Default for FileOptions {
    fn default() -> (options: FileOptions)
        ensures
            options == FileOptions::usual(),
    {
        FileOptions {
            is_ascii: false,
            buffer_size: None,
            comment: None,
            delimiter: 44,
            double_quotes: true,
            escape: 92,
            flexible: false,
            has_headers: true,
            quote: 34,
            quoting: true,
            terminator: None,
            trim: true,
        }
    }
}

/// What a reader is told on top of the template.
#[derive(Clone, Copy, PartialEq, Eq, Debug, Structural)]
pub struct Options {
    /// How the text is cut into lines and fields.
    pub file_options: FileOptions,
    /// Whether fields that no column asks for are kept. They never are:
    /// nothing acts on this yet.
    pub keep_unknown: bool,
}

impl Default for Options {
    fn default() -> (options: Options)
        ensures
            options == (Options { file_options: FileOptions::usual(), keep_unknown: false }),
    {
        Options { file_options: FileOptions::default(), keep_unknown: false }
    }
}

/// Where a reader stands.
#[derive(Clone, Copy, PartialEq, Eq, Debug, Structural)]
pub enum ReaderState {
    /// Nothing was read yet.
    Unopened,
    /// The header line is at hand.
    HeadersRead,
    /// The template is settled.
    Reconciled,
    /// Records are being handed over.
    Streaming,
    /// The source came to its end.
    Closed,
    /// The header line or the template was of no use.
    Error,
}

/// What happens to a reader.
#[derive(Clone, Copy, PartialEq, Eq, Debug, Structural)]
pub enum ReaderEvent {
    /// The header line was read.
    HeaderLine,
    /// The header line could not be read.
    BadHeaderLine,
    /// Headers and template agree.
    Agreed,
    /// Headers and template do not agree.
    Refused,
    /// One more record came.
    Record,
    /// No record is left.
    End,
}

/// Where a reader stands after `event`. A closed reader stays closed and a
/// failed one stays failed; an event that has no place in a state fails the
/// reader.
pub open spec fn next_state(state: ReaderState, event: ReaderEvent) -> ReaderState {
    match (state, event) {
        (ReaderState::Closed, _) => ReaderState::Closed,
        (ReaderState::Error, _) => ReaderState::Error,
        (ReaderState::Unopened, ReaderEvent::HeaderLine) => ReaderState::HeadersRead,
        (ReaderState::HeadersRead, ReaderEvent::Agreed) => ReaderState::Reconciled,
        (ReaderState::Reconciled, ReaderEvent::Record) => ReaderState::Streaming,
        (ReaderState::Streaming, ReaderEvent::Record) => ReaderState::Streaming,
        (ReaderState::Reconciled, ReaderEvent::End) => ReaderState::Closed,
        (ReaderState::Streaming, ReaderEvent::End) => ReaderState::Closed,
        _ => ReaderState::Error,
    }
}

impl ReaderState {
    /// Where the reader stands after `event`.
    pub fn step(self, event: ReaderEvent) -> (next: ReaderState)
        ensures
            next == next_state(self, event),
    {
        match (self, event) {
            (ReaderState::Closed, _) => ReaderState::Closed,
            (ReaderState::Error, _) => ReaderState::Error,
            (ReaderState::Unopened, ReaderEvent::HeaderLine) => ReaderState::HeadersRead,
            (ReaderState::HeadersRead, ReaderEvent::Agreed) => ReaderState::Reconciled,
            (ReaderState::Reconciled, ReaderEvent::Record) => ReaderState::Streaming,
            (ReaderState::Streaming, ReaderEvent::Record) => ReaderState::Streaming,
            (ReaderState::Reconciled, ReaderEvent::End) => ReaderState::Closed,
            (ReaderState::Streaming, ReaderEvent::End) => ReaderState::Closed,
            _ => ReaderState::Error,
        }
    }

    /// Whether nothing can happen to the reader any more.
    pub fn is_terminal(self) -> (done: bool)
        ensures
            done == (self == ReaderState::Closed || self == ReaderState::Error),
    {
        match self {
            ReaderState::Closed => true,
            ReaderState::Error => true,
            _ => false,
        }
    }
}

/// A reader that is closed or has failed stays so, whatever happens.
pub proof fn terminal_states_stay(state: ReaderState, event: ReaderEvent)
    requires
        state == ReaderState::Closed || state == ReaderState::Error,
    ensures
        next_state(state, event) == state,
{
}

/// Records are handed over only once the template is settled: no event
/// leads into `Streaming` from anywhere but `Reconciled` and `Streaming`.
pub proof fn streaming_needs_a_template(state: ReaderState, event: ReaderEvent)
    requires
        next_state(state, event) == ReaderState::Streaming,
    ensures
        state == ReaderState::Reconciled || state == ReaderState::Streaming,
        event == ReaderEvent::Record,
{
}

/// The message of a source that has neither headers nor a template.
pub open spec fn msg_nothing_to_go_by(source: Seq<char>) -> Seq<char> {
    "Cannot read CSV file '"@ + source + "' because it doesn't have either headers or a template"@
}

/// The message of a template that did not take the headers; `inner` says
/// why.
pub open spec fn msg_headers_refused(template: Seq<char>, inner: Seq<char>) -> Seq<char> {
    "Could not validate the headers for "@ + template + ": "@ + inner
}

/// The template to read by and the names of the fields, in the order of the
/// fields.
///
/// With a header line and a declared template, the template must find all
/// the columns it needs among the headers; the fields are then named as the
/// header line names them, and a failure names the template. With a header
/// line alone, the headers make the template. Without a header line the
/// declared template names the fields, column by column, by those of its
/// columns that say what they accept; and with neither there is nothing to
/// go by.
pub open spec fn reconciled(
    source: Seq<char>,
    observed: Option<Seq<Seq<char>>>,
    declared: Option<TemplateView>,
) -> Result<(TemplateView, Seq<Seq<char>>), ErrorView> {
    match (observed, declared) {
        (Some(headers), Some(template)) => if !template.has_validation {
            Err(
                plain_error(
                    Kind::NotFound,
                    msg_headers_refused(template.name, msg_no_validation(template.name)),
                ),
            )
        } else if missing_of(template.columns, headers).len() > 0 {
            Err(
                plain_error(
                    Kind::BadValue,
                    msg_headers_refused(
                        template.name,
                        msg_missing_headers(missing_of(template.columns, headers)),
                    ),
                ),
            )
        } else {
            Ok((template, headers))
        },
        (Some(headers), None) => match template_of_headers(source, headers) {
            Ok(template) => Ok((template, headers)),
            Err(e) => Err(e),
        },
        (None, Some(template)) => if usable_names(template.columns).len() == 0 {
            Err(plain_error(Kind::BadValue, msg_no_headers()))
        } else {
            Ok((template, usable_names(template.columns)))
        },
        (None, None) => Err(plain_error(Kind::NotImplemented, msg_nothing_to_go_by(source))),
    }
}

/// What `reconcile` hands back, as plain values.
pub open spec fn reconcile_view(outcome: Result<(RowTemplate, Vec<String>), SubparError>) -> Result<
    (TemplateView, Seq<Seq<char>>),
    ErrorView,
> {
    match outcome {
        Ok(pair) => Ok((pair.0@, views_of(pair.1@))),
        Err(e) => Err(e@),
    }
}

/// Settles the template to read `source` by and the names of its fields.
/// `observed` is the header line, `None` for a source without one;
/// `declared` is the template that the caller came with.
pub fn reconcile(
    source: &str,
    observed: Option<Vec<String>>,
    declared: Option<RowTemplate>,
) -> (settled: Result<(RowTemplate, Vec<String>), SubparError>)
    ensures
        reconcile_view(settled) == reconciled(
            source@,
            match observed {
                Some(headers) => Some(views_of(headers@)),
                None => None,
            },
            match declared {
                Some(template) => Some(template@),
                None => None,
            },
        ),
{
    match observed {
        Some(headers) => match declared {
            Some(template) => match template.validate_headers(&headers) {
                Ok(_) => Ok((template, headers)),
                Err(e) => {
                    let name = template.name();
                    let mut message = concat3(
                        "Could not validate the headers for ",
                        name.as_str(),
                        ": ",
                    );
                    message.append(e.message.as_str());
                    Err(SubparError::new(e.kind, message))
                },
            },
            None => match RowTemplate::from_headers(source.to_owned(), &headers) {
                Ok(template) => Ok((template, headers)),
                Err(e) => Err(e),
            },
        },
        None => match declared {
            Some(template) => match template.get_headers() {
                Ok(headers) => Ok((template, headers)),
                Err(e) => Err(e),
            },
            None => Err(
                SubparError::new(
                    Kind::NotImplemented,
                    concat3(
                        "Cannot read CSV file '",
                        source,
                        "' because it doesn't have either headers or a template",
                    ),
                ),
            ),
        },
    }
}

/// What the field at place `i` of a record holds: nothing where the record
/// is too short, a mark of emptiness for an empty field, and else the text
/// as it stands.
pub open spec fn field_value(fields: Seq<Seq<char>>, i: int) -> CellView {
    if i >= fields.len() {
        CellView::Null
    } else if fields[i].len() == 0 {
        CellView::Empty
    } else {
        CellView::Raw(fields[i])
    }
}

/// Cells by name, as plain values.
pub struct CellsView {
    pub names: Seq<Seq<char>>,
    pub cells: Seq<NamedCellView>,
}

/// The cells with `cell` under `name`, in place of what was there.
pub open spec fn with_cell(so_far: CellsView, name: Seq<char>, cell: NamedCellView) -> CellsView {
    match index_in(so_far.names, name) {
        Some(i) => CellsView { names: so_far.names, cells: so_far.cells.update(i, cell) },
        None => CellsView { names: so_far.names.push(name), cells: so_far.cells.push(cell) },
    }
}

/// The cells of a record: the first `count` fields, each under its header.
/// Of two fields under one header the later counts.
pub open spec fn cells_of(headers: Seq<Seq<char>>, fields: Seq<Seq<char>>, count: int) -> CellsView
    decreases count,
{
    if count <= 0 {
        CellsView { names: Seq::empty(), cells: Seq::empty() }
    } else {
        with_cell(
            cells_of(headers, fields, count - 1),
            headers[count - 1],
            NamedCellView { name: headers[count - 1], value: field_value(fields, count - 1) },
        )
    }
}

/// Names the fields of a record by the headers.
pub fn record_cells(headers: &Vec<String>, fields: &Vec<String>) -> (cells: NameMap<Cell>)
    ensures
        (CellsView { names: cells.names(), cells: cell_views(cells.items()) }) == cells_of(
            views_of(headers@),
            views_of(fields@),
            headers@.len() as int,
        ),
{
    let ghost names = views_of(headers@);
    let ghost texts = views_of(fields@);
    let mut cells: NameMap<Cell> = NameMap::new();
    assert(cell_views(cells.items()) =~= Seq::<NamedCellView>::empty());
    let mut i: usize = 0;
    while i < headers.len()
        invariant
            i <= headers.len(),
            names == views_of(headers@),
            texts == views_of(fields@),
            (CellsView { names: cells.names(), cells: cell_views(cells.items()) }) == cells_of(
                names,
                texts,
                i as int,
            ),
        decreases headers.len() - i,
    {
        let value = if i < fields.len() {
            if fields[i].as_str().unicode_len() == 0 {
                CellValue::Empty
            } else {
                CellValue::Raw(fields[i].clone())
            }
        } else {
            CellValue::Null
        };
        assert(value@ == field_value(texts, i as int));
        let cell = Cell::new(headers[i].clone(), value);
        let ghost items = cells.items();
        proof {
            cells.lemma_same_len();
            lemma_index_absent(cells.names(), headers@[i as int]@);
        }
        cells.put(headers[i].clone(), cell);
        proof {
            match index_in(cells_of(names, texts, i as int).names, names[i as int]) {
                Some(k) => {
                    assert(cell_views(items.update(k, cell)) =~= cell_views(items).update(k, cell@));
                },
                None => {
                    assert(cell_views(items.push(cell)) =~= cell_views(items).push(cell@));
                },
            }
        }
        i = i + 1;
    }
    cells
}

/// Every header has a cell among the cells of a record, whatever the
/// record holds.
proof fn lemma_headers_have_cells(
    headers: Seq<Seq<char>>,
    fields: Seq<Seq<char>>,
    count: int,
    j: int,
)
    requires
        0 <= j < count <= headers.len(),
    ensures
        index_in(cells_of(headers, fields, count).names, headers[j]) is Some,
    decreases count,
{
    let before = cells_of(headers, fields, count - 1);
    let after = cells_of(headers, fields, count);
    let name = headers[count - 1];
    lemma_index_absent(before.names, name);
    lemma_index_absent(before.names, headers[j]);
    lemma_index_absent(after.names, headers[j]);
    if j < count - 1 {
        lemma_headers_have_cells(headers, fields, count - 1, j);
        let k = index_in(before.names, headers[j])->Some_0;
        assert(after.names[k] == headers[j]);
    } else {
        match index_in(before.names, name) {
            Some(k) => {
                assert(after.names[k] == name);
            },
            None => {
                assert(after.names[before.names.len() as int] == name);
            },
        }
    }
}

/// Where no column that must be there is missing among the headers, every
/// such column is one of the headers.
proof fn lemma_required_among_headers(columns: Seq<ColumnView>, headers: Seq<Seq<char>>, i: int)
    requires
        missing_of(columns, headers).len() == 0,
        0 <= i < columns.len(),
        columns[i].required,
    ensures
        headers.contains(columns[i].name),
    decreases columns.len(),
{
    if i < columns.len() - 1 {
        assert(columns.drop_last()[i] == columns[i]);
        lemma_required_among_headers(columns.drop_last(), headers, i);
    }
}

/// Once headers and template agree, no record lacks a column that must be
/// there: each such column finds a cell of its name, be it one that holds
/// nothing.
pub proof fn agreed_sources_lack_no_column(
    template: TemplateView,
    headers: Seq<Seq<char>>,
    fields: Seq<Seq<char>>,
    i: int,
)
    requires
        missing_of(template.columns, headers).len() == 0,
        0 <= i < template.columns.len(),
        template.columns[i].required,
    ensures
        index_in(
            cells_of(headers, fields, headers.len() as int).names,
            template.columns[i].name,
        ) is Some,
{
    lemma_required_among_headers(template.columns, headers, i);
    let j = choose|j: int| 0 <= j < headers.len() && headers[j] == template.columns[i].name;
    lemma_headers_have_cells(headers, fields, headers.len() as int, j);
}

/// The line after `line`. The count stops at the largest number.
pub open spec fn line_after(line: u64) -> u64 {
    if line < u64::MAX {
        (line + 1) as u64
    } else {
        line
    }
}

/// The message for a header line that could not be read.
pub open spec fn msg_no_header_line(source: Seq<char>) -> Seq<char> {
    "Could not read the header line of file "@ + source
}

/// The message for a record that could not be read; `inner` says why.
pub open spec fn msg_read_failed(line: u64, source: Seq<char>, inner: Seq<char>) -> Seq<char> {
    "Error reading record "@ + integer_text(line as int) + " from file "@ + source + ": "@ + inner
}

/// The message for a record that did not make a row; `inner` says why.
pub open spec fn msg_record_failed(line: u64, source: Seq<char>, inner: Seq<char>) -> Seq<char> {
    "Could not convert record "@ + integer_text(line as int) + " from file "@ + source
        + " into a row: "@ + inner
}

/// The failure `e` of the record at `line` of `source`: what `e` says, with
/// the line and the source.
pub open spec fn at_record(e: ErrorView, line: u64, source: Seq<char>) -> ErrorView {
    ErrorView { message: msg_record_failed(line, source, e.message), line: Some(line), ..e }
}

/// What the record at `line` of `source` gives: its row, or the failure of
/// the row with the line and the source.
pub open spec fn record_outcome(
    template: TemplateView,
    headers: Seq<Seq<char>>,
    fields: Seq<Seq<char>>,
    line: u64,
    source: Seq<char>,
) -> Result<RowView, ErrorView> {
    let cells = cells_of(headers, fields, headers.len() as int);
    match row_of(template, cells.names, cells.cells) {
        Ok(row) => Ok(row),
        Err(e) => Err(at_record(e, line, source)),
    }
}

/// What the reader makes of what it is handed for the record at `line`: of
/// a record its row or the failure of the row, and of a record that could
/// not be read the failure that says so.
pub open spec fn record_result(
    template: TemplateView,
    headers: Seq<Seq<char>>,
    record: Result<Seq<Seq<char>>, Seq<char>>,
    line: u64,
    source: Seq<char>,
) -> Result<RowView, ErrorView> {
    match record {
        Ok(fields) => record_outcome(template, headers, fields, line, source),
        Err(reason) => Err(
            plain_error(Kind::CsvError, msg_read_failed(line, source, reason)).at_line(line),
        ),
    }
}

/// A reader, as plain values.
pub struct ReaderView {
    /// What the source is called.
    pub source: Seq<char>,
    /// What the reader was told.
    pub options: Options,
    /// The names of the fields, in the order of the fields.
    pub headers: Seq<Seq<char>>,
    /// The number of the record that was handed over last.
    pub line: u64,
    pub template: TemplateView,
    pub state: ReaderState,
}

impl ReaderView {
    /// The template of a reader is settled: the reader waits for its first
    /// record, is in the middle of the records, or has come to the end.
    pub open spec fn wf(self) -> bool {
        self.state == ReaderState::Reconciled || self.state == ReaderState::Streaming || self.state
            == ReaderState::Closed
    }
}

/// The reader of one source, once its template is settled.
#[derive(Debug)]
pub struct CsvReader {
    /// What the source is called: the place of the file.
    source: String,
    /// What the reader was told.
    options: Options,
    /// The first line of the source, or the columns of the template.
    headers: Vec<String>,
    /// The number of the record that was handed over last.
    current_line: u64,
    /// The expected fields.
    template: RowTemplate,
    state: ReaderState,
}

impl View for CsvReader {
    type V = ReaderView;

    closed spec fn view(&self) -> ReaderView {
        ReaderView {
            source: self.source@,
            options: self.options,
            headers: views_of(self.headers@),
            line: self.current_line,
            template: self.template@,
            state: self.state,
        }
    }
}

/// The headers that count: the header line of a source that is read with
/// one, nothing of a source that is read without.
pub open spec fn observed_headers(options: Options, header_line: Option<Seq<Seq<char>>>) -> Option<
    Seq<Seq<char>>,
> {
    if options.file_options.has_headers {
        header_line
    } else {
        None
    }
}

/// What a header line that may be absent holds.
pub open spec fn header_view(header_line: Option<Vec<String>>) -> Option<Seq<Seq<char>>> {
    match header_line {
        Some(headers) => Some(views_of(headers@)),
        None => None,
    }
}

/// What a template that may be absent holds.
pub open spec fn declared_view(template: Option<RowTemplate>) -> Option<TemplateView> {
    match template {
        Some(t) => Some(t@),
        None => None,
    }
}

/// What a record that was read, or the reason why none could be, holds.
pub open spec fn record_view(record: Result<Vec<String>, String>) -> Result<
    Seq<Seq<char>>,
    Seq<char>,
> {
    match record {
        Ok(fields) => Ok(views_of(fields@)),
        Err(reason) => Err(reason@),
    }
}

/// What a row that may have failed, or the end of the rows, holds.
pub open spec fn next_view(next: Option<Result<Row, SubparError>>) -> Option<
    Result<RowView, ErrorView>,
> {
    match next {
        Some(outcome) => Some(row_outcome_view(outcome)),
        None => None,
    }
}

/// The options that hold where none are given.
pub open spec fn options_or_usual(opts: Option<Options>) -> Options {
    match opts {
        Some(o) => o,
        None => Options { file_options: FileOptions::usual(), keep_unknown: false },
    }
}

/// The template and the names of the fields that a reader of `source` sets
/// out with, or the failure that keeps it from setting out: a source that
/// is read with headers needs its header line, and headers and template
/// must agree.
pub open spec fn reader_setup(
    source: Seq<char>,
    options: Options,
    header_line: Option<Seq<Seq<char>>>,
    declared: Option<TemplateView>,
) -> Result<(TemplateView, Seq<Seq<char>>), ErrorView> {
    if options.file_options.has_headers && header_line is None {
        Err(plain_error(Kind::CsvError, msg_no_header_line(source)))
    } else {
        reconciled(source, observed_headers(options, header_line), declared)
    }
}

/// What happens to a reader that is handed `record`.
pub open spec fn event_of(record: Option<Result<Vec<String>, String>>) -> ReaderEvent {
    match record {
        Some(_) => ReaderEvent::Record,
        None => ReaderEvent::End,
    }
}

/// What a reader makes of each of `records`, the first being the record at
/// line 1.
pub open spec fn rows_of(
    template: TemplateView,
    headers: Seq<Seq<char>>,
    records: Seq<Result<Vec<String>, String>>,
    source: Seq<char>,
) -> Seq<Result<RowView, ErrorView>> {
    Seq::new(
        records.len(),
        |i: int| record_result(template, headers, record_view(records[i]), (i + 1) as u64, source),
    )
}

/// What each of `rows` holds, in order.
pub open spec fn row_outcome_views(rows: Seq<Result<Row, SubparError>>) -> Seq<
    Result<RowView, ErrorView>,
> {
    rows.map_values(|r: Result<Row, SubparError>| row_outcome_view(r))
}

/// Whether `outcomes` are what the rows become as records of type `T`: of a
/// row whatever `T` makes of it, of a failure that failure.
pub open spec fn converted<T: SubparRow>(
    rows: Seq<Result<Row, SubparError>>,
    outcomes: Seq<Result<T, SubparError>>,
) -> bool {
    &&& outcomes.len() == rows.len()
    &&& forall|i: int|
        0 <= i < rows.len() ==> match rows[i] {
            Ok(row) => call_ensures(T::from_row, (row,), #[trigger] outcomes[i]),
            Err(e) => outcomes[i] matches Err(kept) && kept@ == e@,
        }
}

/// Whether `split` holds the two sides of what the records of a source
/// become, read by `template`: each record is made a row, and each row a
/// record of type `T`.
pub open spec fn split_of_source<T: SubparRow>(
    settled: (TemplateView, Seq<Seq<char>>),
    records: Seq<Result<Vec<String>, String>>,
    source: Seq<char>,
    split: SplitResult<T>,
) -> bool {
    exists|rows: Seq<Result<Row, SubparError>>, outcomes: Seq<Result<T, SubparError>>|
        {
            &&& row_outcome_views(rows) == rows_of(settled.0, settled.1, records, source)
            &&& #[trigger] converted::<T>(rows, outcomes)
            &&& split.items@ == successes(outcomes)
            &&& error_views(split.errors@) == failures(outcomes)
        }
}

/// Whether `all` is what reading a whole source into records of type `T`
/// gives, where `template` is the template of `T`.
pub open spec fn read_of_source<T: SubparRow>(
    source: Seq<char>,
    options: Options,
    header_line: Option<Seq<Seq<char>>>,
    template: TemplateView,
    records: Seq<Result<Vec<String>, String>>,
    all: Result<SplitResult<T>, SubparError>,
) -> bool {
    match reader_setup(source, options, header_line, Some(template)) {
        Err(failure) => all matches Err(e) && e@ == failure,
        Ok(settled) => all matches Ok(split) && split_of_source::<T>(
            settled,
            records,
            source,
            split,
        ),
    }
}

/// The message of a source that was not read whole.
pub open spec fn msg_slurp_failed(source: Seq<char>) -> Seq<char> {
    "Failed to slurp CSV file at '"@ + source + "'"@
}

/// What a caller to whom any failure fails the source makes of the two
/// sides: the items where nothing failed, and else all the failures.
pub open spec fn strict<T>(all: Result<SplitResult<T>, SubparError>, context: Seq<char>, found: Result<
    Vec<T>,
    ErrorGroup,
>) -> bool {
    match all {
        Ok(split) => if split.errors@.len() == 0 {
            found == Ok::<Vec<T>, ErrorGroup>(split.items)
        } else {
            found matches Err(group) && group.context@ == context && group.errors == split.errors
        },
        Err(e) => found matches Err(group) && group.context@ == context && group.errors@ == seq![e],
    }
}

impl CsvReader {
    #[verifier::type_invariant]
    spec fn inv(self) -> bool {
        self.state == ReaderState::Reconciled || self.state == ReaderState::Streaming || self.state
            == ReaderState::Closed
    }

    /// Sets up the reader of `source`. `header_line` is the first line of a
    /// source that is read with headers, `None` where that line could not
    /// be read; `template` is what the caller expects of the rows. Without
    /// options the usual ones hold.
    pub fn new(
        source: &str,
        header_line: Option<Vec<String>>,
        template: Option<RowTemplate>,
        opts: Option<Options>,
    ) -> (reader: Result<CsvReader, SubparError>)
        ensures
            match reader_setup(
                source@,
                options_or_usual(opts),
                header_view(header_line),
                declared_view(template),
            ) {
                Ok(settled) => reader matches Ok(r) && r@ == (ReaderView {
                    source: source@,
                    options: options_or_usual(opts),
                    headers: settled.1,
                    line: 0,
                    template: settled.0,
                    state: ReaderState::Reconciled,
                }),
                Err(failure) => reader matches Err(e) && e@ == failure,
            },
    {
        let options = match opts {
            Some(o) => o,
            None => Options::default(),
        };
        let observed = if options.file_options.has_headers {
            match header_line {
                Some(headers) => Some(headers),
                None => {
                    let mut message = "Could not read the header line of file ".to_owned();
                    message.append(source);
                    return Err(SubparError::new(Kind::CsvError, message));
                },
            }
        } else {
            None
        };
        match reconcile(source, observed, template) {
            Ok((template, headers)) => Ok(
                CsvReader {
                    source: source.to_owned(),
                    options,
                    headers,
                    current_line: 0,
                    template,
                    state: ReaderState::Unopened.step(ReaderEvent::HeaderLine).step(
                        ReaderEvent::Agreed,
                    ),
                },
            ),
            Err(e) => Err(e),
        }
    }

    /// The number of the record that was handed over last.
    pub fn current_line(&self) -> (line: u64)
        ensures
            line == self@.line,
    {
        self.current_line
    }

    /// Where the reader stands.
    pub fn state(&self) -> (state: ReaderState)
        ensures
            state == self@.state,
            self@.wf(),
    {
        proof {
            use_type_invariant(self);
        }
        self.state
    }

    /// The template that the reader reads by.
    pub fn template(&self) -> (template: &RowTemplate)
        ensures
            template@ == self@.template,
    {
        &self.template
    }

    /// The names of the fields, in the order of the fields.
    pub fn headers(&self) -> (headers: &Vec<String>)
        ensures
            views_of(headers@) == self@.headers,
    {
        &self.headers
    }

    /// Takes the next record of the source, or word that there is none
    /// (`None`) or that it could not be read (`Err` with the reason), and
    /// gives what the reader makes of it: the row, the failure, or the end.
    /// Every call counts one line more, but for a reader that has come to
    /// the end: it stays as it is.
    pub fn next_row(&mut self, record: Option<Result<Vec<String>, String>>) -> (next: Option<
        Result<Row, SubparError>,
    >)
        ensures
            final(self)@.wf(),
            final(self)@.source == old(self)@.source,
            final(self)@.options == old(self)@.options,
            final(self)@.headers == old(self)@.headers,
            final(self)@.template == old(self)@.template,
            final(self)@.state == next_state(old(self)@.state, event_of(record)),
            if old(self)@.state == ReaderState::Closed {
                next is None && final(self)@ == old(self)@
            } else {
                let line = line_after(old(self)@.line);
                &&& final(self)@.line == line
                &&& next_view(next) == match record {
                    None => None::<Result<RowView, ErrorView>>,
                    Some(r) => Some(
                        record_result(
                            old(self)@.template,
                            old(self)@.headers,
                            record_view(r),
                            line,
                            old(self)@.source,
                        ),
                    ),
                }
            },
    {
        proof {
            use_type_invariant(&*self);
        }
        if self.state.is_terminal() {
            return None;
        }
        if self.current_line < u64::MAX {
            self.current_line = self.current_line + 1;
        }
        let line = self.current_line;
        match record {
            None => {
                self.state = self.state.step(ReaderEvent::End);
                None
            },
            Some(Err(reason)) => {
                self.state = self.state.step(ReaderEvent::Record);
                let number = unsigned_to_text(line);
                let mut message = concat5(
                    "Error reading record ",
                    number.as_str(),
                    " from file ",
                    self.source.as_str(),
                    ": ",
                );
                message.append(reason.as_str());
                Some(Err(SubparError::new(Kind::CsvError, message).at_line(line)))
            },
            Some(Ok(fields)) => {
                self.state = self.state.step(ReaderEvent::Record);
                let cells = record_cells(&self.headers, &fields);
                match self.template.to_row(&cells) {
                    Ok(row) => Some(Ok(row)),
                    Err(e) => {
                        let number = unsigned_to_text(line);
                        let mut message = concat5(
                            "Could not convert record ",
                            number.as_str(),
                            " from file ",
                            self.source.as_str(),
                            " into a row: ",
                        );
                        message.append(e.message.as_str());
                        Some(
                            Err(
                                SubparError {
                                    kind: e.kind,
                                    message,
                                    column: e.column,
                                    line: Some(line),
                                    causes: e.causes,
                                },
                            ),
                        )
                    },
                }
            },
        }
    }

    /// Reads a whole source: sets up the reader and makes a row of every
    /// record, in order. The failure of a record takes the place of its
    /// row and stops nothing; the call itself fails only where no reader
    /// can be set up.
    pub fn read_rows(
        source: &str,
        header_line: Option<Vec<String>>,
        template: Option<RowTemplate>,
        records: Vec<Result<Vec<String>, String>>,
        opts: Option<Options>,
    ) -> (rows: Result<Vec<Result<Row, SubparError>>, SubparError>)
        ensures
            match reader_setup(
                source@,
                options_or_usual(opts),
                header_view(header_line),
                declared_view(template),
            ) {
                Ok(settled) => rows matches Ok(made) && row_outcome_views(made@) == rows_of(
                    settled.0,
                    settled.1,
                    records@,
                    source@,
                ),
                Err(failure) => rows matches Err(e) && e@ == failure,
            },
    {
        let mut reader = match CsvReader::new(source, header_line, template, opts) {
            Ok(reader) => reader,
            Err(e) => {
                return Err(e);
            },
        };
        let ghost start = reader@;
        let ghost all = records@;
        let ghost expected = rows_of(start.template, start.headers, all, start.source);
        let mut rows: Vec<Result<Row, SubparError>> = Vec::new();
        let count = records.len();
        for record in it: records
            invariant
                it.seq() == all,
                all.len() == count,
                expected == rows_of(start.template, start.headers, all, start.source),
                reader@.source == start.source,
                reader@.headers == start.headers,
                reader@.template == start.template,
                reader@.line == it.index(),
                reader@.state != ReaderState::Closed,
                rows@.len() == it.index(),
                forall|j: int|
                    0 <= j < rows@.len() ==> row_outcome_view(#[trigger] rows@[j]) == expected[j],
        {
            proof {
                let i = it.index() as int;
                assert(i + 1 <= u64::MAX);
                assert(expected[i] == record_result(
                    start.template,
                    start.headers,
                    record_view(record),
                    (i + 1) as u64,
                    start.source,
                ));
            }
            match reader.next_row(Some(record)) {
                Some(outcome) => {
                    rows.push(outcome);
                },
                None => {
                    // A reader that is handed a record has not come to the end.
                    assert(false);
                },
            }
        }
        assert(row_outcome_views(rows@) =~= expected);
        Ok(rows)
    }

    /// Makes a record of type `T` of every row, in order, and keeps every
    /// outcome on its side: the record, the failure of the row, or the
    /// failure of the record.
    pub fn convert_rows<T: SubparRow>(rows: Vec<Result<Row, SubparError>>) -> (split: SplitResult<T>)
        ensures
            exists|outcomes: Seq<Result<T, SubparError>>|
                {
                    &&& #[trigger] converted::<T>(rows@, outcomes)
                    &&& split.items@ == successes(outcomes)
                    &&& error_views(split.errors@) == failures(outcomes)
                },
            split.items@.len() + split.errors@.len() == rows@.len(),
    {
        let mut split: SplitResult<T> = SplitResult::new();
        let ghost all = rows@;
        let ghost mut outcomes: Seq<Result<T, SubparError>> = Seq::empty();
        for row in it: rows
            invariant
                it.seq() == all,
                outcomes.len() == it.index(),
                forall|i: int|
                    0 <= i < outcomes.len() ==> match all[i] {
                        Ok(row) => call_ensures(T::from_row, (row,), #[trigger] outcomes[i]),
                        Err(e) => outcomes[i] matches Err(kept) && kept@ == e@,
                    },
                split.items@ == successes(outcomes),
                error_views(split.errors@) == failures(outcomes),
        {
            let outcome = match row {
                Ok(row) => T::from_row(row),
                Err(e) => Err(e),
            };
            proof {
                let before = outcomes;
                outcomes = outcomes.push(outcome);
                assert(outcomes.drop_last() == before);
            }
            split.push(outcome);
        }
        proof {
            nothing_is_dropped(outcomes);
            assert(error_views(split.errors@).len() == split.errors@.len());
            assert(converted::<T>(all, outcomes));
        }
        split
    }

    /// Reads a whole source into records of type `T`: every record is made
    /// into a row by the template of `T` and the row into a `T`. Every
    /// outcome is kept, on its side; the call itself fails only where no
    /// reader can be set up.
    pub fn read_all<T: SubparRow>(
        source: &str,
        header_line: Option<Vec<String>>,
        records: Vec<Result<Vec<String>, String>>,
        opts: Option<Options>,
    ) -> (all: Result<SplitResult<T>, SubparError>)
        ensures
            exists|template: RowTemplate|
                #[trigger] call_ensures(T::get_template, (), template) && read_of_source::<T>(
                    source@,
                    options_or_usual(opts),
                    header_view(header_line),
                    template@,
                    records@,
                    all,
                ),
            all matches Ok(split) ==> split.items@.len() + split.errors@.len() == records@.len(),
    {
        let template = T::get_template();
        let ghost declared = template;
        let ghost settled = reader_setup(
            source@,
            options_or_usual(opts),
            header_view(header_line),
            Some(template@),
        );
        let all = match CsvReader::read_rows(source, header_line, Some(template), records, opts) {
            Ok(rows) => {
                assert(row_outcome_views(rows@).len() == rows@.len());
                let split = CsvReader::convert_rows::<T>(rows);
                proof {
                    let outcomes = choose|outcomes: Seq<Result<T, SubparError>>|
                        {
                            &&& #[trigger] converted::<T>(rows@, outcomes)
                            &&& split.items@ == successes(outcomes)
                            &&& error_views(split.errors@) == failures(outcomes)
                        };
                    assert(converted::<T>(rows@, outcomes));
                    assert(split_of_source::<T>(settled->Ok_0, records@, source@, split));
                }
                Ok(split)
            },
            Err(e) => Err(e),
        };
        assert(call_ensures(T::get_template, (), declared) && read_of_source::<T>(
            source@,
            options_or_usual(opts),
            header_view(header_line),
            declared@,
            records@,
            all,
        ));
        all
    }

    /// Reads a whole source into records of type `T`, for a caller to whom
    /// any failure fails the source: then all the failures come back in
    /// place of the records.
    pub fn slurp<T: SubparRow>(
        source: &str,
        header_line: Option<Vec<String>>,
        records: Vec<Result<Vec<String>, String>>,
        opts: Option<Options>,
    ) -> (found: Result<Vec<T>, ErrorGroup>)
        ensures
            exists|template: RowTemplate, all: Result<SplitResult<T>, SubparError>|
                {
                    &&& #[trigger] read_of_source::<T>(
                        source@,
                        options_or_usual(opts),
                        header_view(header_line),
                        template@,
                        records@,
                        all,
                    )
                    &&& call_ensures(T::get_template, (), template)
                    &&& strict(all, msg_slurp_failed(source@), found)
                },
            match found {
                Ok(items) => items@.len() == records@.len(),
                Err(group) => 0 < group.errors@.len() && (group.errors@.len() <= records@.len()
                    || group.errors@.len() == 1),
            },
    {
        let context = concat3("Failed to slurp CSV file at '", source, "'");
        let all = CsvReader::read_all::<T>(source, header_line, records, opts);
        let ghost read = all;
        let found = match all {
            Ok(split) => split.as_result(context.as_str()),
            Err(e) => {
                let mut errors: Vec<SubparError> = Vec::new();
                errors.push(e);
                assert(errors@ =~= seq![e]);
                Err(ErrorGroup { context, errors })
            },
        };
        proof {
            let template = choose|template: RowTemplate|
                #[trigger] call_ensures(T::get_template, (), template) && read_of_source::<T>(
                    source@,
                    options_or_usual(opts),
                    header_view(header_line),
                    template@,
                    records@,
                    read,
                );
            assert(read_of_source::<T>(
                source@,
                options_or_usual(opts),
                header_view(header_line),
                template@,
                records@,
                read,
            ));
            assert(strict(read, msg_slurp_failed(source@), found));
        }
        found
    }
}

} // verus!
