//! What is known of one sheet of a workbook.

use vstd::prelude::*;
use vstd::string::*;
use crate::base::instance::Mode;
use crate::base::row::usable_names;
use crate::base::row::RowTemplate;
use crate::base::row::SubparRow;
use crate::errors::Kind;
use crate::errors::SubparError;
use crate::errors::plain_error;
use crate::text::views_of;

verus! {

/// Marks what can stand for a sheet when a workbook is walked through.
pub trait SubparSheet {
}

/// Marks the readers and writers that hold a sheet open until they are done.
pub trait SheetModifier {
}

/// The headers of a sheet, as a template expects them or as they were read.
#[derive(Clone, PartialEq, Eq, Debug)]
pub struct Headers {
    /// All the headers, in the order in which they are read and written.
    ordered: Vec<String>,
    /// Whether upper and lower case are told apart when headers are matched.
    case_insensitive: bool,
}

/// The message of a step that headers cannot take yet.
pub open spec fn msg_headers_unfinished(step: Seq<char>) -> Seq<char> {
    "'"@ + step + "' still needs to be implemented"@
}

/// What `Headers` hold, as plain values.
pub struct HeadersView {
    pub ordered: Seq<Seq<char>>,
    pub case_insensitive: bool,
}

impl HeadersView {
    /// No headers at all, with upper and lower case told apart.
    pub open spec fn none() -> HeadersView {
        HeadersView { ordered: Seq::empty(), case_insensitive: false }
    }
}

impl View for Headers {
    type V = HeadersView;

    closed spec fn view(&self) -> HeadersView {
        HeadersView { ordered: views_of(self.ordered@), case_insensitive: self.case_insensitive }
    }
}

impl Default for Headers {
    fn default() -> (headers: Headers)
        ensures
            headers@ == HeadersView::none(),
    {
        Headers::new()
    }
}

impl Headers {
    /// No headers at all.
    pub fn new() -> (headers: Headers)
        ensures
            headers@ == HeadersView::none(),
    {
        let headers = Headers { ordered: Vec::new(), case_insensitive: false };
        assert(views_of(headers.ordered@) =~= Seq::<Seq<char>>::empty());
        headers
    }

    /// The failure of a step that headers cannot take yet.
    fn unfinished(step: &str) -> (e: SubparError)
        ensures
            e@ == plain_error(Kind::NotImplemented, msg_headers_unfinished(step@)),
    {
        let mut message = "'".to_owned();
        message.append(step);
        message.append("' still needs to be implemented");
        SubparError::new(Kind::NotImplemented, message)
    }

    /// Puts a new list of names in place of the headers. No headers can be
    /// set yet: the call says so and changes nothing.
    pub fn set_headers(&self, _names: Vec<String>) -> (headers: Result<Headers, SubparError>)
        ensures
            headers matches Err(e) && e@ == plain_error(
                Kind::NotImplemented,
                msg_headers_unfinished("set_headers"@),
            ),
    {
        Err(Headers::unfinished("set_headers"))
    }

    /// Adds a header at the end. No header can be added yet: the call says
    /// so and changes nothing.
    pub fn append(&self, _name: String) -> (headers: Result<Headers, SubparError>)
        ensures
            headers matches Err(e) && e@ == plain_error(
                Kind::NotImplemented,
                msg_headers_unfinished("append"@),
            ),
    {
        Err(Headers::unfinished("append"))
    }

    /// Adds a header at a given place. No header can be added yet: the call
    /// says so and changes nothing.
    pub fn insert(&self, _name: String, _position: usize) -> (headers: Result<Headers, SubparError>)
        ensures
            headers matches Err(e) && e@ == plain_error(
                Kind::NotImplemented,
                msg_headers_unfinished("insert"@),
            ),
    {
        Err(Headers::unfinished("insert"))
    }

    /// Gives a header a second name. No header can be given one yet: the
    /// call says so and changes nothing.
    pub fn alias(&self, _name: String, _alt: String) -> (headers: Result<Headers, SubparError>)
        ensures
            headers matches Err(e) && e@ == plain_error(
                Kind::NotImplemented,
                msg_headers_unfinished("alias"@),
            ),
    {
        Err(Headers::unfinished("alias"))
    }
}

/// What is known of a sheet that was read before.
#[derive(Clone, PartialEq, Eq, Debug)]
pub struct SheetMetadata {
    pub name: String,
    pub current_line: usize,
}

/// How the rows of a sheet are expected to look.
#[derive(Clone, PartialEq, Eq, Debug)]
pub struct SheetTemplate {
    pub headers: Headers,
}

impl Default for SheetTemplate {
    fn default() -> (template: SheetTemplate)
        ensures
            template.headers@ == HeadersView::none(),
    {
        SheetTemplate { headers: Headers::new() }
    }
}

/// How a sheet is reached.
#[derive(Clone, PartialEq, Eq, Debug)]
pub enum SheetAccessor {
    /// A delimited text, by the exact place of its file.
    Csv(String),
}

/// The message for a template that comes with no mode.
pub open spec fn msg_no_modes() -> Seq<char> {
    "Sheet templates must be registered with at least one mode"@
}

/// What a reader or writer is told of a sheet.
#[derive(Debug)]
pub struct Sheet {
    /// The name under which the workbook knows the sheet. For a delimited
    /// text this is the name of the file without its extension.
    name: String,
    /// How the sheet is reached.
    accessor: Option<SheetAccessor>,
    /// What is expected of the sheet.
    base: Option<SheetTemplate>,
    /// The templates that go with the sheet, each with the modes that it
    /// may be used in.
    templates: Vec<(u128, Vec<Mode>)>,
    /// Everything that is known of the contents.
    metadata: Option<SheetMetadata>,
}

impl SubparSheet for Sheet {
}

/// What is known of a sheet, as plain values.
pub struct SheetView {
    pub name: Seq<char>,
    /// The place of the file of the sheet, where it is known.
    pub accessor: Option<Seq<char>>,
    /// The headers that are expected of the sheet, once that is settled.
    pub base: Option<HeadersView>,
    /// The templates that go with the sheet, each with its modes.
    pub templates: Seq<(u128, Seq<Mode>)>,
    /// The name and the line that were read last, where the sheet was read.
    pub metadata: Option<(Seq<char>, usize)>,
}

impl SheetView {
    /// A sheet of which only the name, and perhaps the way to it, is known.
    pub open spec fn fresh(name: Seq<char>, accessor: Option<Seq<char>>) -> SheetView {
        SheetView { name, accessor, base: None, templates: Seq::empty(), metadata: None }
    }
}

/// The place that an accessor that may be absent leads to.
pub open spec fn accessor_view(accessor: Option<SheetAccessor>) -> Option<Seq<char>> {
    match accessor {
        Some(SheetAccessor::Csv(path)) => Some(path@),
        None => None,
    }
}

impl View for Sheet {
    type V = SheetView;

    closed spec fn view(&self) -> SheetView {
        SheetView {
            name: self.name@,
            accessor: accessor_view(self.accessor),
            base: match self.base {
                Some(template) => Some(template.headers@),
                None => None,
            },
            templates: Seq::new(
                self.templates@.len(),
                |i: int| (self.templates@[i].0, self.templates@[i].1@),
            ),
            metadata: match self.metadata {
                Some(known) => Some((known.name@, known.current_line)),
                None => None,
            },
        }
    }
}

impl Sheet {
    /// A sheet of which only the name, and perhaps the way to it, is known.
    pub fn new(name: &String, accessor: Option<SheetAccessor>) -> (sheet: Sheet)
        ensures
            sheet@ == SheetView::fresh(name@, accessor_view(accessor)),
    {
        let sheet = Sheet {
            name: name.clone(),
            accessor,
            base: None,
            templates: Vec::new(),
            metadata: None,
        };
        assert(sheet@.templates =~= Seq::empty());
        sheet
    }

    /// The name under which the workbook knows the sheet.
    pub fn name(&self) -> (name: String)
        ensures
            name@ == self@.name,
    {
        self.name.clone()
    }

    /// How the sheet is reached, where that is known.
    pub fn accessor(&self) -> (accessor: Option<SheetAccessor>)
        ensures
            accessor_view(accessor) == self@.accessor,
    {
        match &self.accessor {
            Some(SheetAccessor::Csv(path)) => Some(SheetAccessor::Csv(path.clone())),
            None => None,
        }
    }

    /// Settles what is expected of the sheet: the headers that the template
    /// of `Row` stands for, with upper and lower case told apart.
    pub fn set_base<Row: SubparRow>(&mut self) -> (done: Result<(), SubparError>)
        ensures
            done is Ok,
            exists|template: RowTemplate|
                #[trigger] call_ensures(Row::get_template, (), template) && final(self)@ == (
                SheetView {
                    base: Some(
                        HeadersView {
                            ordered: usable_names(template@.columns),
                            case_insensitive: false,
                        },
                    ),
                    ..old(self)@
                }),
    {
        let template = Row::get_template();
        let ordered = match template.get_headers() {
            Ok(headers) => headers,
            Err(_) => {
                let none: Vec<String> = Vec::new();
                assert(views_of(none@) =~= usable_names(template@.columns));
                none
            },
        };
        self.base = Some(SheetTemplate { headers: Headers { ordered, case_insensitive: false } });
        assert(call_ensures(Row::get_template, (), template) && self@ == (SheetView {
            base: Some(
                HeadersView { ordered: usable_names(template@.columns), case_insensitive: false },
            ),
            ..old(self)@
        }));
        Ok(())
    }

    /// Checks a template that is to go with the sheet: it must come with
    /// one mode at least.
    pub fn add_template(&self, modes: Vec<Mode>) -> (added: Result<(), SubparError>)
        ensures
            match added {
                Ok(_) => modes@.len() > 0,
                Err(e) => modes@.len() == 0 && e@ == plain_error(Kind::BadValue, msg_no_modes()),
            },
    {
        if modes.len() == 0 {
            Err(
                SubparError::of(
                    Kind::BadValue,
                    "Sheet templates must be registered with at least one mode",
                ),
            )
        } else {
            Ok(())
        }
    }
}

} // verus!
