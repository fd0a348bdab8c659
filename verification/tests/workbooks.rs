use subpar::base::accessor::Accessor;
use subpar::base::instance::Mode;
use subpar::base::instance::SubparWorkbook;
use subpar::base::messages::Action;
use subpar::base::messages::Event;
use subpar::base::row::Row;
use subpar::base::row::RowTemplate;
use subpar::base::row::SubparRow;
use subpar::base::sheet::Headers;
use subpar::base::sheet::Sheet;
use subpar::base::sheet::SheetAccessor;
use subpar::base::sheet::SheetMetadata;
use subpar::base::sheet::SheetTemplate;
use subpar::base::state::ConnectionState;
use subpar::base::state::State;
use subpar::base::workbook::BuildParams;
use subpar::base::workbook::Workbook;
use subpar::csv::instance::path_to_id;
use subpar::csv::instance::CsvWorkbook;
use subpar::csv::instance::Options;
use subpar::csv::instance::ResolvedPath;
use subpar::derive::FieldOptions;
use subpar::errors::Kind;
use subpar::errors::SubparError;
use subpar::helpers::sheet_name_from;
use subpar::helpers::to_sheet_name;
use subpar::json::CanonicalValue;
use subpar::server::SubparServer;
use subpar::text::chars_of;
use subpar::text::concat3;
use subpar::text::concat5;
use subpar::text::join;
use subpar::text::same_text;

fn file(path: &str, parent: &str) -> ResolvedPath {
    ResolvedPath { absolute: path.to_string(), is_dir: false, parent: Some(parent.to_string()) }
}

#[test]
fn modes_come_in_three_sets() {
    assert_eq!(Mode::read_only(), vec![Mode::Read]);
    assert_eq!(Mode::basic(), vec![Mode::Read, Mode::Append]);
    assert_eq!(Mode::all(), vec![Mode::Read, Mode::Append, Mode::Insert, Mode::Overwrite]);
    assert_eq!(Mode::default(), Mode::Read);
    assert_ne!(Action::Read, Action::Write);
    assert_ne!(Event::ReadSheet, Event::WroteData);
}

#[test]
fn a_sheet_is_named_by_its_file() {
    assert_eq!(to_sheet_name("/data/invoices.csv"), Ok("invoices".to_string()));
    assert_eq!(to_sheet_name("invoices.2020.csv"), Ok("invoices.2020".to_string()));
    assert_eq!(to_sheet_name("/data/.hidden"), Ok(".hidden".to_string()));
    assert_eq!(to_sheet_name("/data/plain"), Ok("plain".to_string()));
    let failure = to_sheet_name("/data/..").unwrap_err();
    assert_eq!(failure.kind, Kind::InvalidLocation);
    assert_eq!(failure.message, "csv::to_sheet_name file '/data/..' did not have a file stem");
    assert_eq!(to_sheet_name("").unwrap_err().kind, Kind::InvalidLocation);
    assert_eq!(sheet_name_from("p", Some("s".to_string())), Ok("s".to_string()));
    assert_eq!(sheet_name_from("p", None).unwrap_err().kind, Kind::InvalidLocation);
}

#[test]
fn an_accessor_is_named_by_its_file_or_its_path() {
    let accessor = Accessor::new_csv("data/people.csv");
    assert_eq!(accessor, Accessor::Csv("data/people.csv".to_string()));
    assert_eq!(accessor.name(), "people");
    assert_eq!(Accessor::new_csv("..").name(), "..");
    assert_eq!(accessor.name_from(Ok("stem".to_string())), "stem");
    assert_eq!(
        accessor.name_from(Err(SubparError::of(Kind::InvalidLocation, "none"))),
        "data/people.csv"
    );
    let resolved = accessor.clone().canonicalize(false, Some("/abs/data/people.csv".to_string()));
    assert_eq!(resolved, Ok(Accessor::Csv("/abs/data/people.csv".to_string())));
    let failure = accessor.canonicalize(false, None).unwrap_err();
    assert_eq!(failure.kind, Kind::InvalidPath);
    assert_eq!(
        failure.message,
        "path data/people.csv does not exist on the system and cannot be canonicalized"
    );
}

#[test]
fn headers_cannot_be_changed_yet() {
    let headers = Headers::new();
    assert_eq!(headers, Headers::default());
    for (failure, step) in [
        (headers.set_headers(vec![]).unwrap_err(), "set_headers"),
        (headers.append("a".to_string()).unwrap_err(), "append"),
        (headers.insert("a".to_string(), 0).unwrap_err(), "insert"),
        (headers.alias("a".to_string(), "b".to_string()).unwrap_err(), "alias"),
    ] {
        assert_eq!(failure.kind, Kind::NotImplemented);
        assert_eq!(failure.message, format!("'{}' still needs to be implemented", step));
    }
    assert_eq!(SheetTemplate::default().headers, Headers::new());
    let metadata = SheetMetadata { name: "s".to_string(), current_line: 3 };
    assert_eq!(metadata.clone(), metadata);
}

#[test]
fn a_sheet_template_needs_a_mode() {
    let sheet = Sheet::new(&"s".to_string(), Some(SheetAccessor::Csv("/s.csv".to_string())));
    assert_eq!(sheet.name(), "s");
    assert_eq!(sheet.add_template(Mode::basic()), Ok(()));
    let mut sheet = sheet;
    assert_eq!(sheet.set_base::<Name>(), Ok(()));
    assert_eq!(sheet.name(), "s");
    let failure = sheet.add_template(vec![]).unwrap_err();
    assert_eq!(failure.kind, Kind::BadValue);
    assert_eq!(failure.message, "Sheet templates must be registered with at least one mode");
}

#[test]
fn one_sheet_is_open_at_a_time() {
    let mut state = State::new("book".to_string());
    assert_eq!(state.list_sheets(), Vec::<String>::new());
    assert_eq!(state.add_sheet("a".to_string(), None), Ok(()));
    assert_eq!(state.add_sheet("b".to_string(), Some(Sheet::new(&"b".to_string(), None))), Ok(()));
    let failure = state.add_sheet("a".to_string(), None).unwrap_err();
    assert_eq!(failure.kind, Kind::DuplicateKey);
    assert_eq!(failure.message, "A sheet with the name a already exists in the workbook book");
    assert_eq!(state.list_sheets(), vec!["a".to_string(), "b".to_string()]);
    assert_eq!(state.get_sheet(&"a".to_string()).unwrap().name(), "a");
    assert_eq!(state.get_sheet(&"a".to_string()).unwrap().accessor(), None);
    // A sheet whose name is known takes the place of the one that was
    // known, though the call fails.
    let reached = Sheet::new(&"b".to_string(), Some(SheetAccessor::Csv("/b.csv".to_string())));
    assert_eq!(
        state.add_sheet("b".to_string(), Some(reached)).unwrap_err().kind,
        Kind::DuplicateKey
    );
    assert_eq!(
        state.get_sheet(&"b".to_string()).unwrap().accessor(),
        Some(SheetAccessor::Csv("/b.csv".to_string()))
    );
    assert_eq!(state.list_sheets(), vec!["a".to_string(), "b".to_string()]);

    let failure = state.close().unwrap_err();
    assert_eq!(failure.kind, Kind::Impossible);
    assert_eq!(failure.message, "State tried to close the active sheet, but none were open");

    let failure = state.open(&"zz".to_string(), Mode::Read).unwrap_err();
    assert_eq!(failure.kind, Kind::NotFound);
    assert_eq!(failure.message, "Could not find sheet 'zz'");

    assert_eq!(state.open(&"a".to_string(), Mode::Read), Ok(()));
    let failure = state.open(&"b".to_string(), Mode::Read).unwrap_err();
    assert_eq!(failure.kind, Kind::Busy);
    assert_eq!(failure.message, "Sheet b cannot be opened because sheet a is already active");
    assert_eq!(state.close(), Ok(()));
    assert_eq!(state.open(&"b".to_string(), Mode::Append), Ok(()));
    assert_eq!(ConnectionState::default(), ConnectionState::New);
}

#[test]
fn a_csv_workbook_is_a_directory_of_sheets() {
    let workbook = CsvWorkbook::new(file("/data/people.csv", "/data")).unwrap();
    let expected = uuid::Uuid::new_v5(&uuid::Uuid::NAMESPACE_OID, b"csv|/data");
    assert_eq!(workbook.get_id(), Ok(expected.as_u128()));
    assert_eq!(path_to_id("/data"), expected.as_u128());
    assert_ne!(path_to_id("/data"), path_to_id("/other"));
    assert_eq!(workbook.get_name(), Ok(expected.to_string()));
    assert_eq!(workbook.get_name().unwrap().len(), 36);
    // Digit by digit: 32 digits to the base of sixteen, in five groups.
    let id = workbook.get_id().unwrap();
    let written: Vec<char> = workbook.get_name().unwrap().chars().collect();
    for (i, c) in written.iter().enumerate() {
        if i == 8 || i == 13 || i == 18 || i == 23 {
            assert_eq!(*c, '-');
        } else {
            let place = i - [8, 13, 18, 23].iter().filter(|h| **h < i).count();
            let digit = ((id >> ((31 - place) * 4)) & 0xf) as u32;
            assert_eq!(*c, char::from_digit(digit, 16).unwrap());
        }
    }
    assert_eq!(workbook.list_sheets(), Ok(vec!["people".to_string()]));
    assert_eq!(workbook.sheet_count(), 1);
    assert_eq!(
        workbook.get_sheet_accessor(&"people".to_string()),
        Ok(SheetAccessor::Csv("/data/people.csv".to_string()))
    );
    let failure = workbook.get_sheet_accessor(&"none".to_string()).unwrap_err();
    assert_eq!(failure.kind, Kind::NotFound);
    assert_eq!(failure.message, "Could not get a sheet path for none");

    let renamed = workbook.duplicate().set_name("pretty".to_string()).unwrap();
    assert_eq!(renamed.get_name(), Ok("pretty".to_string()));
    assert_eq!(renamed.get_id(), workbook.get_id());
    let mut changed = workbook;
    let copy = changed.set_delimeter(b';').unwrap();
    assert_eq!(copy.list_sheets(), changed.list_sheets());

    let directory = ResolvedPath { absolute: "/data".to_string(), is_dir: true, parent: None };
    assert_eq!(
        CsvWorkbook::parse_path(directory.clone()),
        Ok(("/data".to_string(), Vec::<String>::new()))
    );
    assert_eq!(CsvWorkbook::new(directory).unwrap().list_sheets(), Ok(vec![]));
    assert_eq!(
        CsvWorkbook::parse_path(file("/data/a.csv", "/data")),
        Ok(("/data".to_string(), vec!["/data/a.csv".to_string()]))
    );
    let orphan = ResolvedPath { absolute: "a.csv".to_string(), is_dir: false, parent: None };
    let failure = CsvWorkbook::new(orphan).unwrap_err();
    assert_eq!(failure.kind, Kind::InvalidPath);
    assert_eq!(failure.message, "The file 'a.csv' does not lie in a directory");
    assert_eq!(Options::new(), Options::default());
    assert_eq!(Options::new().delimiter, b',');
    assert!(Options::new().has_headers);
}

#[derive(Debug, PartialEq)]
struct Name(String);

impl SubparRow for Name {
    fn get_template() -> RowTemplate {
        let mut template = RowTemplate::new("names".to_string(), None);
        template.add_column("name", None, true).unwrap();
        template
    }

    fn from_row(row: Row) -> Result<Name, SubparError> {
        match row.get_cell("name")? {
            CanonicalValue::String(name) => Ok(Name(name)),
            _ => Err(SubparError::of(Kind::ConversionError, "no text")),
        }
    }
}

#[test]
fn a_workbook_knows_the_sheets_of_its_instance() {
    let mut workbook = Workbook::new(BuildParams::CSV(file("/d/names.csv", "/d"))).unwrap();
    assert_eq!(workbook.list_sheets(), Ok(vec!["names".to_string()]));
    assert_eq!(workbook.single_sheet("/d/names.csv"), Ok("names".to_string()));
    let failure = workbook.dump::<Name>("names".to_string(), vec![]).unwrap_err();
    assert_eq!(failure.kind, Kind::NotImplemented);

    let records = vec![Ok(vec!["Ann".to_string()]), Ok(vec![]), Ok(vec!["Bo".to_string()])];
    let split = workbook
        .slurp::<Name>(&"names".to_string(), Some(vec!["name".to_string()]), records.clone())
        .unwrap();
    assert_eq!(split.items, vec![Name("Ann".to_string()), Name("Bo".to_string())]);
    assert_eq!(split.errors.len(), 1);
    assert_eq!(split.errors[0].line, Some(2));
    // The sheet stays in use.
    let failure = workbook
        .slurp::<Name>(&"names".to_string(), Some(vec!["name".to_string()]), records)
        .unwrap_err();
    assert_eq!(failure.kind, Kind::Busy);

    let built = CsvWorkbook::new(ResolvedPath {
        absolute: "/d".to_string(),
        is_dir: true,
        parent: None,
    })
    .unwrap();
    let mut empty = Workbook::new(BuildParams::Built(built)).unwrap();
    assert_eq!(empty.list_sheets(), Ok(vec![]));
    let failure = empty.single_sheet("/d").unwrap_err();
    assert_eq!(failure.kind, Kind::NotFound);
    assert_eq!(failure.message, "read_csv could not find any sheets at /d");

    assert_eq!(empty.add_sheet("a".to_string()), Ok(()));
    assert_eq!(empty.single_sheet("/d"), Ok("a".to_string()));
    assert_eq!(empty.add_sheet("b".to_string()), Ok(()));
    assert_eq!(empty.add_sheet("a".to_string()).unwrap_err().kind, Kind::DuplicateKey);
    assert_eq!(empty.list_sheets(), Ok(vec!["a".to_string(), "b".to_string()]));
    let failure = empty.single_sheet("/d").unwrap_err();
    assert_eq!(failure.kind, Kind::AmbiguousResult);
    assert_eq!(failure.message, "read_csv expects one sheet and received multiple for path /d");
}

/// A workbook that is kept somewhere else: it answers with what it was
/// told to answer.
#[derive(Debug)]
struct Told {
    name: Result<String, SubparError>,
    sheets: Vec<String>,
}

impl SubparWorkbook for Told {
    fn get_id(&self) -> Result<u128, SubparError> {
        Ok(7)
    }

    fn get_name(&self) -> Result<String, SubparError> {
        self.name.clone()
    }

    fn list_sheets(&self) -> Result<Vec<String>, SubparError> {
        Ok(self.sheets.clone())
    }

    fn get_sheet_accessor(&self, sheet_name: &String) -> Result<SheetAccessor, SubparError> {
        if self.sheets.contains(sheet_name) {
            Ok(SheetAccessor::Csv(format!("/told/{}.csv", sheet_name)))
        } else {
            Err(SubparError::of(Kind::UnknownSheet, "not told of it"))
        }
    }
}

#[test]
fn a_workbook_of_any_kind_is_wrapped() {
    let told = Told {
        name: Ok("told".to_string()),
        sheets: vec!["a".to_string(), "b".to_string()],
    };
    let mut workbook = Workbook::from_instance(told).unwrap();
    assert_eq!(workbook.list_sheets(), Ok(vec!["a".to_string(), "b".to_string()]));
    let records = vec![Ok(vec!["Ann".to_string()])];
    let split = workbook
        .slurp::<Name>(&"b".to_string(), Some(vec!["name".to_string()]), records)
        .unwrap();
    assert_eq!(split.items, vec![Name("Ann".to_string())]);

    // A sheet that the state knows and the instance does not.
    let mut other = Workbook::from_instance(Told { name: Ok("t".to_string()), sheets: vec![] }).unwrap();
    other.add_sheet("x".to_string()).unwrap();
    let failure = other.slurp::<Name>(&"x".to_string(), None, vec![]).unwrap_err();
    assert_eq!(failure.kind, Kind::UnknownSheet);

    // Every name that repeats another is refused, in one failure.
    let twice = Told {
        name: Ok("told".to_string()),
        sheets: vec!["a".to_string(), "b".to_string(), "a".to_string(), "b".to_string()],
    };
    let failure = Workbook::from_instance(twice).unwrap_err();
    assert_eq!(failure.kind, Kind::ErrorList);
    assert_eq!(failure.message, "Failed to add all the sheets");
    assert_eq!(failure.causes.len(), 2);
    assert_eq!(failure.causes[0].kind, Kind::DuplicateKey);
    assert_eq!(
        failure.causes[0].message,
        "A sheet with the name a already exists in the workbook told"
    );

    // The first answer that fails, fails the wrapping.
    let nameless = Told { name: Err(SubparError::of(Kind::NullValue, "no name")), sheets: vec![] };
    assert_eq!(Workbook::from_instance(nameless).unwrap_err().kind, Kind::NullValue);

    let assembled = Workbook::assemble(
        Told { name: Ok("x".to_string()), sheets: vec![] },
        "given".to_string(),
        9,
        vec!["only".to_string()],
    )
    .unwrap();
    let mut assembled = assembled;
    assert_eq!(assembled.single_sheet("p"), Ok("only".to_string()));
}

#[test]
fn a_delimited_text_is_read_in_one_call() {
    let records = vec![Ok(vec!["Ann".to_string()]), Ok(vec!["Bo".to_string()])];
    let names = Workbook::read_csv::<Name>(
        file("/d/names.csv", "/d"),
        Some(vec!["name".to_string()]),
        records,
    );
    assert_eq!(names, Ok(vec![Name("Ann".to_string()), Name("Bo".to_string())]));
    let group = Workbook::read_csv::<Name>(
        ResolvedPath { absolute: "/d".to_string(), is_dir: true, parent: None },
        None,
        vec![],
    )
    .unwrap_err();
    assert_eq!(group.errors.len(), 1);
    assert_eq!(group.errors[0].kind, Kind::NotFound);
    assert_eq!(group.errors[0].message, "read_csv could not find any sheets at /d");
    assert_eq!(group.context, "Failed to read the CSV file at '/d'");

    // A file that lies in no directory, and a path that names no file.
    let orphan = ResolvedPath { absolute: "a.csv".to_string(), is_dir: false, parent: None };
    let group = Workbook::read_csv::<Name>(orphan, None, vec![]).unwrap_err();
    assert_eq!(group.errors.len(), 1);
    assert_eq!(group.errors[0].kind, Kind::InvalidPath);
    assert_eq!(group.errors[0].message, "The file 'a.csv' does not lie in a directory");
    let group = Workbook::read_csv::<Name>(file("/d/..", "/d"), None, vec![]).unwrap_err();
    assert_eq!(group.errors.len(), 1);
    assert_eq!(group.errors[0].kind, Kind::InvalidLocation);
    assert_eq!(
        group.errors[0].message,
        "csv::to_sheet_name file '/d/..' did not have a file stem"
    );

    // What fails while the records are read comes back whole.
    let broken = vec![Ok(vec!["Ann".to_string()]), Err("cut short".to_string())];
    let group = Workbook::read_csv::<Name>(
        file("/d/names.csv", "/d"),
        Some(vec!["name".to_string()]),
        broken,
    )
    .unwrap_err();
    assert_eq!(group.errors.len(), 1);
    assert_eq!(group.errors[0].kind, Kind::CsvError);
    assert_eq!(group.errors[0].line, Some(2));
    assert_eq!(group.context, "Failed to read the CSV file at '/d/names.csv'");
    // A header line that lacks what the template needs fails the reading.
    let group = Workbook::read_csv::<Name>(
        file("/d/names.csv", "/d"),
        Some(vec!["other".to_string()]),
        vec![],
    )
    .unwrap_err();
    assert_eq!(group.errors.len(), 1);
    assert_eq!(group.errors[0].kind, Kind::BadValue);
    assert_eq!(
        group.errors[0].message,
        "Could not validate the headers for names: The following required headers were not found: [name]"
    );
}

#[test]
fn the_server_cannot_act_yet() {
    let server = SubparServer::new();
    let failure = server.run(Action::Open).unwrap_err();
    assert_eq!(failure.kind, Kind::NotImplemented);
    assert_eq!(failure.message, "SubparServer::run is not implemented");
}

#[test]
fn a_field_has_two_options() {
    let options = FieldOptions::default();
    assert_eq!(options, FieldOptions { rename: None, parser: None });
    let options = options.with_option("rename", "Invoice ID".to_string()).unwrap();
    let options = options.with_option("parser", "cell_csv_to_vec".to_string()).unwrap();
    assert_eq!(
        options,
        FieldOptions {
            rename: Some("Invoice ID".to_string()),
            parser: Some("cell_csv_to_vec".to_string()),
        }
    );
    let failure = options.with_option("other", "x".to_string()).unwrap_err();
    assert_eq!(failure.kind, Kind::BadValue);
    assert_eq!(failure.message, "parse_group error: 'other' is an unknown option");
}

#[test]
fn texts_are_put_together() {
    assert_eq!(chars_of("añb"), vec!['a', 'ñ', 'b']);
    assert_eq!(concat3("a", "b", "c"), "abc");
    assert_eq!(concat5("a", "b", "c", "d", "e"), "abcde");
    assert_eq!(join(&vec![]), "");
    assert_eq!(join(&vec!["a".to_string()]), "a");
    assert_eq!(join(&vec!["a".to_string(), "b".to_string(), "c".to_string()]), "a, b, c");
    assert!(same_text("a", "a"));
    assert!(!same_text("a", "b"));
}
