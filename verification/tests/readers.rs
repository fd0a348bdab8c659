use subpar::base::cell::CellValue;
use subpar::base::row::Row;
use subpar::base::row::RowTemplate;
use subpar::base::row::SubparRow;
use subpar::csv::io::reader::reconcile;
use subpar::csv::io::reader::record_cells;
use subpar::csv::io::reader::CsvReader;
use subpar::csv::io::reader::FileOptions;
use subpar::csv::io::reader::Options;
use subpar::csv::io::reader::ReaderEvent;
use subpar::csv::io::reader::ReaderState;
use subpar::errors::Kind;
use subpar::errors::SubparError;
use subpar::json::CanonicalValue;
use subpar::number::Number;
use subpar::schema::InstanceType;
use subpar::schema::SchemaObject;
use subpar::schema::SingleOrVec;

fn accepts(t: InstanceType) -> SchemaObject {
    SchemaObject { title: None, instance_type: Some(SingleOrVec::Single(t)), rest: None }
}

fn people() -> RowTemplate {
    let mut template = RowTemplate::new("people".to_string(), None);
    template.add_column("name", Some(accepts(InstanceType::String)), true).unwrap();
    template.add_column("age", Some(accepts(InstanceType::Integer)), true).unwrap();
    template
}

fn strings(values: &[&str]) -> Vec<String> {
    values.iter().map(|v| v.to_string()).collect()
}

/// Cuts a delimited text into its header line and its records.
fn read(text: &str) -> (Option<Vec<String>>, Vec<Result<Vec<String>, String>>) {
    let mut reader = csv::ReaderBuilder::new().from_reader(text.as_bytes());
    let headers = reader.headers().ok().map(|h| h.iter().map(|f| f.to_string()).collect());
    let records = reader
        .records()
        .map(|r| match r {
            Ok(record) => Ok(record.iter().map(|f| f.to_string()).collect()),
            Err(e) => Err(e.to_string()),
        })
        .collect();
    (headers, records)
}

#[test]
fn rows_that_parse_come_back_beside_a_report_of_those_that_do_not() {
    let (headers, records) = read("name,age\nAlice,30\nBob,notanumber\n");
    let mut reader = CsvReader::new("people.csv", headers, Some(people()), None).unwrap();
    assert_eq!(reader.state(), ReaderState::Reconciled);
    assert_eq!(reader.current_line(), 0);
    assert_eq!(reader.headers(), &strings(&["name", "age"]));

    let mut rows: Vec<Row> = Vec::new();
    let mut failures: Vec<SubparError> = Vec::new();
    for record in records {
        match reader.next_row(Some(record)) {
            Some(Ok(row)) => rows.push(row),
            Some(Err(e)) => failures.push(e),
            None => panic!("the reader is not at its end"),
        }
    }
    assert!(reader.next_row(None).is_none());
    assert_eq!(reader.state(), ReaderState::Closed);

    assert_eq!(rows.len(), 1);
    assert_eq!(rows[0].get_cell("name"), Ok(CanonicalValue::String("Alice".to_string())));
    assert_eq!(rows[0].get_cell("age"), Ok(CanonicalValue::Number(Number::PosInt(30))));
    assert_eq!(rows[0].len(), 2);

    assert_eq!(failures.len(), 1);
    let failure = &failures[0];
    assert_eq!(failure.kind, Kind::ErrorList);
    assert_eq!(failure.line, Some(2));
    assert_eq!(
        failure.message,
        "Could not convert record 2 from file people.csv into a row: Unable to convert cells to a row of 'people'"
    );
    assert_eq!(failure.causes.len(), 1);
    assert_eq!(failure.causes[0].kind, Kind::ConversionError);
    assert_eq!(failure.causes[0].column, Some("age".to_string()));
    assert_eq!(
        failure.causes[0].message,
        "Could not convert cell 'age' holding 'notanumber' to a value for row 'people': Failed to convert 'notanumber' into an integer"
    );
}

#[test]
fn a_reader_counts_its_records_and_stays_closed() {
    let mut reader = CsvReader::new("t.csv", Some(strings(&["a"])), None, None).unwrap();
    assert_eq!(reader.template().name(), "t.csv");
    assert!(reader.next_row(Some(Ok(strings(&["1"])))).unwrap().is_ok());
    assert_eq!(reader.current_line(), 1);
    assert_eq!(reader.state(), ReaderState::Streaming);
    let failure = reader.next_row(Some(Err("broken".to_string()))).unwrap().unwrap_err();
    assert_eq!(failure.kind, Kind::CsvError);
    assert_eq!(failure.line, Some(2));
    assert_eq!(failure.message, "Error reading record 2 from file t.csv: broken");
    assert_eq!(reader.current_line(), 2);
    assert!(reader.next_row(None).is_none());
    assert_eq!(reader.current_line(), 3);
    assert_eq!(reader.state(), ReaderState::Closed);
    assert!(reader.next_row(Some(Ok(strings(&["1"])))).is_none());
    assert_eq!(reader.current_line(), 3);
    assert_eq!(reader.state(), ReaderState::Closed);
}

#[test]
fn headers_and_template_are_reconciled() {
    // Both: the header line names the fields, the template types them.
    let (template, headers) =
        reconcile("f", Some(strings(&["age", "x", "name"])), Some(people())).unwrap();
    assert_eq!(headers, strings(&["age", "x", "name"]));
    assert_eq!(template.get_headers(), Ok(strings(&["name", "age"])));

    let failure = reconcile("f", Some(strings(&["x"])), Some(people())).unwrap_err();
    assert_eq!(failure.kind, Kind::BadValue);
    assert_eq!(
        failure.message,
        "Could not validate the headers for people: The following required headers were not found: [name, age]"
    );
    let failure = CsvReader::new("f", Some(strings(&["name"])), Some(people()), None).unwrap_err();
    assert_eq!(failure.kind, Kind::BadValue);
    assert_eq!(
        failure.message,
        "Could not validate the headers for people: The following required headers were not found: [age]"
    );
    let bare = RowTemplate::new(
        "bare".to_string(),
        Some(subpar::schema::RootSchema {
            meta_schema: None,
            title: None,
            instance_type: None,
            object: None,
            rest: None,
        }),
    );
    let failure = reconcile("f", Some(strings(&["x"])), Some(bare)).unwrap_err();
    assert_eq!(failure.kind, Kind::NotFound);
    assert_eq!(
        failure.message,
        "Could not validate the headers for bare: Row Template bare does not have a useable schema"
    );

    // Headers alone make the template.
    let (template, headers) = reconcile("f", Some(strings(&["a", "b"])), None).unwrap();
    assert_eq!(headers, strings(&["a", "b"]));
    assert_eq!(template.name(), "f");
    assert_eq!(template.get_headers(), Ok(strings(&["a", "b"])));
    assert_eq!(template.get_cell_schema("a"), Ok(&accepts(InstanceType::String)));
    assert_eq!(template.get_validation().unwrap().required, Vec::<String>::new());
    let failure = reconcile("f", Some(strings(&["a", "a"])), None).unwrap_err();
    assert_eq!(failure.kind, Kind::ErrorList);
    assert_eq!(failure.causes.len(), 1);

    // The template alone names the fields.
    let (_, headers) = reconcile("f", None, Some(people())).unwrap();
    assert_eq!(headers, strings(&["name", "age"]));
    let failure = reconcile("f", None, Some(RowTemplate::new("e".to_string(), None))).unwrap_err();
    assert_eq!(failure.kind, Kind::BadValue);

    // Neither.
    let failure = reconcile("f", None, None).unwrap_err();
    assert_eq!(failure.kind, Kind::NotImplemented);
    assert_eq!(
        failure.message,
        "Cannot read CSV file 'f' because it doesn't have either headers or a template"
    );
}

#[test]
fn a_reader_follows_its_options() {
    let mut options = Options::default();
    assert_eq!(options.file_options, FileOptions::default());
    assert!(!options.keep_unknown);
    assert_eq!(FileOptions::default().delimiter, b',');
    assert_eq!(FileOptions::default().escape, b'\\');
    assert_eq!(FileOptions::default().quote, b'"');
    assert!(FileOptions::default().has_headers);
    assert!(FileOptions::default().trim);
    assert!(!FileOptions::default().flexible);

    let failure = CsvReader::new("f", None, Some(people()), None).unwrap_err();
    assert_eq!(failure.kind, Kind::CsvError);
    assert_eq!(failure.message, "Could not read the header line of file f");

    options.file_options.has_headers = false;
    let reader = CsvReader::new("f", None, Some(people()), Some(options)).unwrap();
    assert_eq!(reader.headers(), &strings(&["name", "age"]));
    // A header line that nobody asked for is not looked at.
    let reader = CsvReader::new("f", Some(strings(&["x"])), Some(people()), Some(options)).unwrap();
    assert_eq!(reader.headers(), &strings(&["name", "age"]));
    let failure = CsvReader::new("f", None, None, Some(options)).unwrap_err();
    assert_eq!(failure.kind, Kind::NotImplemented);
}

#[test]
fn fields_are_named_by_their_headers() {
    let cells = record_cells(&strings(&["a", "b", "c", "a"]), &strings(&["1", "", "3"]));
    assert_eq!(cells.len(), 3);
    assert_eq!(cells.name_at(0), "a");
    // Of two fields under one header the later counts; here it is missing.
    assert_eq!(cells.get("a").unwrap().value(), &CellValue::Null);
    assert_eq!(cells.get("b").unwrap().value(), &CellValue::Empty);
    assert_eq!(cells.get("c").unwrap().value(), &CellValue::Raw("3".to_string()));
    assert_eq!(cells.get("c").unwrap().name(), "c");
    let cells = record_cells(&strings(&["a"]), &strings(&["1", "2"]));
    assert_eq!(cells.len(), 1);
    assert_eq!(cells.get("a").unwrap().value(), &CellValue::Raw("1".to_string()));
}

#[test]
fn a_missing_field_is_no_cell_and_an_empty_field_is_an_empty_cell() {
    let mut template = RowTemplate::new("t".to_string(), None);
    template.add_column("a", Some(accepts(InstanceType::String)), false).unwrap();
    template.add_column("b", Some(accepts(InstanceType::String)), false).unwrap();
    let mut reader = CsvReader::new("f", Some(strings(&["a", "b"])), Some(template), None).unwrap();
    // `a` is empty and becomes null; `b` is missing, and text may not be null.
    let failure = reader.next_row(Some(Ok(strings(&[""])))).unwrap().unwrap_err();
    assert_eq!(failure.causes.len(), 1);
    assert_eq!(failure.causes[0].kind, Kind::BadValue);
    assert_eq!(failure.causes[0].column, Some("b".to_string()));
    assert_eq!(
        failure.causes[0].message,
        "Could not convert cell 'b' holding '<no cell>' to a value for row 't': Strings are not allowed to be null. Try again"
    );
    let row = reader.next_row(Some(Ok(strings(&["", "x"])))).unwrap().unwrap();
    assert_eq!(row.get_cell("a"), Ok(CanonicalValue::Null));
    assert_eq!(row.get_cell("b"), Ok(CanonicalValue::String("x".to_string())));
}

#[test]
fn the_reader_walks_through_its_states() {
    let steps = [
        (ReaderState::Unopened, ReaderEvent::HeaderLine, ReaderState::HeadersRead),
        (ReaderState::Unopened, ReaderEvent::BadHeaderLine, ReaderState::Error),
        (ReaderState::HeadersRead, ReaderEvent::Agreed, ReaderState::Reconciled),
        (ReaderState::HeadersRead, ReaderEvent::Refused, ReaderState::Error),
        (ReaderState::Reconciled, ReaderEvent::Record, ReaderState::Streaming),
        (ReaderState::Streaming, ReaderEvent::Record, ReaderState::Streaming),
        (ReaderState::Streaming, ReaderEvent::End, ReaderState::Closed),
        (ReaderState::Reconciled, ReaderEvent::End, ReaderState::Closed),
        (ReaderState::Unopened, ReaderEvent::Record, ReaderState::Error),
        (ReaderState::HeadersRead, ReaderEvent::Record, ReaderState::Error),
    ];
    for (state, event, next) in steps {
        assert_eq!(state.step(event), next);
    }
    let events = [
        ReaderEvent::HeaderLine,
        ReaderEvent::BadHeaderLine,
        ReaderEvent::Agreed,
        ReaderEvent::Refused,
        ReaderEvent::Record,
        ReaderEvent::End,
    ];
    for event in events {
        assert_eq!(ReaderState::Closed.step(event), ReaderState::Closed);
        assert_eq!(ReaderState::Error.step(event), ReaderState::Error);
    }
    assert!(ReaderState::Closed.is_terminal());
    assert!(ReaderState::Error.is_terminal());
    assert!(!ReaderState::Streaming.is_terminal());
    assert!(!ReaderState::Unopened.is_terminal());
}

#[derive(Debug, PartialEq)]
struct Person {
    name: String,
    age: i64,
}

impl SubparRow for Person {
    fn get_template() -> RowTemplate {
        people()
    }

    fn from_row(row: Row) -> Result<Person, SubparError> {
        let name = match row.get_cell("name")? {
            CanonicalValue::String(name) => name,
            _ => return Err(SubparError::of(Kind::ConversionError, "name is no text")),
        };
        let age = match row.get_cell("age")? {
            CanonicalValue::Number(Number::PosInt(age)) => age as i64,
            CanonicalValue::Number(Number::NegInt(age)) => age,
            _ => return Err(SubparError::of(Kind::ConversionError, "age is no integer")),
        };
        Ok(Person { name, age })
    }
}

#[test]
fn a_source_is_read_into_records() {
    let (headers, records) = read("name,age\nAlice,30\nBob,41\n");
    let all = CsvReader::slurp::<Person>("p.csv", headers, records, None);
    assert_eq!(
        all,
        Ok(vec![
            Person { name: "Alice".to_string(), age: 30 },
            Person { name: "Bob".to_string(), age: 41 },
        ])
    );

    let (headers, records) = read("name,age\nAlice,30\nBob,notanumber\nCy,x\n");
    let group = CsvReader::slurp::<Person>("p.csv", headers.clone(), records.clone(), None).unwrap_err();
    assert_eq!(group.context, "Failed to slurp CSV file at 'p.csv'");
    assert_eq!(group.errors.len(), 2);
    assert_eq!(group.errors[0].line, Some(2));
    assert_eq!(group.errors[1].line, Some(3));

    let split = CsvReader::read_all::<Person>("p.csv", headers, records, None).unwrap();
    assert_eq!(split.items, vec![Person { name: "Alice".to_string(), age: 30 }]);
    assert_eq!(split.errors.len(), 2);

    let (headers, records) = read("name\nAlice\n");
    let group = CsvReader::slurp::<Person>("p.csv", headers.clone(), records.clone(), None).unwrap_err();
    assert_eq!(group.errors.len(), 1);
    assert_eq!(group.errors[0].kind, Kind::BadValue);
    assert!(CsvReader::read_all::<Person>("p.csv", headers, records, None).is_err());
}
