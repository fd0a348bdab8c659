use subpar::base::cell::Cell;
use subpar::base::cell::CellValue;
use subpar::base::row::Row;
use subpar::base::row::RowTemplate;
use subpar::base::row::Validator;
use subpar::errors::Kind;
use subpar::json::CanonicalValue;
use subpar::names::NameMap;
use subpar::number::Number;
use subpar::schema::InstanceType;
use subpar::schema::ObjectValidation;
use subpar::schema::Property;
use subpar::schema::RootSchema;
use subpar::schema::Schema;
use subpar::schema::SchemaObject;
use subpar::schema::SingleOrVec;

fn accepts(t: InstanceType) -> SchemaObject {
    SchemaObject { title: None, instance_type: Some(SingleOrVec::Single(t)), rest: None }
}

fn people() -> RowTemplate {
    let mut template = RowTemplate::new("people".to_string(), None);
    template.add_column("name", Some(accepts(InstanceType::String)), true).unwrap();
    template.add_column("age", Some(accepts(InstanceType::Integer)), true).unwrap();
    template.add_column("nick", None, false).unwrap();
    template
}

fn cells(pairs: &[(&str, &str)]) -> NameMap<Cell> {
    let mut cells = NameMap::new();
    for (name, value) in pairs {
        cells.put(name.to_string(), Cell::new(name.to_string(), CellValue::Raw(value.to_string())));
    }
    cells
}

fn text(value: &str) -> CanonicalValue {
    CanonicalValue::String(value.to_string())
}

#[test]
fn second_value_under_a_name_is_refused_and_the_first_stays() {
    let mut row = Row::new(None);
    assert_eq!(row.schema(), &RowTemplate::blank_schema("No Name".to_string()));
    assert_eq!(row.add_cell("a", text("first")), Ok(()));
    let failure = row.add_cell("a", text("second")).unwrap_err();
    assert_eq!(failure.kind, Kind::DuplicateKey);
    assert_eq!(failure.message, "Attempted to add a second column named 'a'");
    assert_eq!(row.get_cell("a"), Ok(text("first")));
    assert_eq!(row.len(), 1);
    assert_eq!(row.add_cell("A", text("other")), Ok(()));
    assert_eq!(row.len(), 2);
    assert_eq!(row.name_at(1), "A");
    assert_eq!(row.value_at(1), text("other"));
}

#[test]
fn a_row_has_no_value_under_an_unknown_name() {
    let mut row = Row::new(Some(&people()));
    assert_eq!(row.schema(), &people().schema());
    assert_eq!(row.schema().title, Some("people".to_string()));
    let failure = row.get_cell("age").unwrap_err();
    assert_eq!(failure.kind, Kind::NotFound);
    assert_eq!(failure.message, "Could not find cell named 'age' in row");
    row.add_cell("age", CanonicalValue::Number(Number::PosInt(30))).unwrap();
    assert_eq!(row.get_cell("age"), Ok(CanonicalValue::Number(Number::PosInt(30))));
}

#[test]
fn a_row_is_made_column_by_column() {
    let row = people().to_row(&cells(&[("age", "30"), ("name", "Alice"), ("extra", "x")])).unwrap();
    assert_eq!(row.len(), 2);
    assert_eq!(row.name_at(0), "name");
    assert_eq!(row.name_at(1), "age");
    assert_eq!(row.get_cell("name"), Ok(text("Alice")));
    assert_eq!(row.get_cell("age"), Ok(CanonicalValue::Number(Number::PosInt(30))));
    // What no column asks for is passed over.
    assert!(row.get_cell("extra").is_err());
    // A column that need not be there writes nothing.
    assert!(row.get_cell("nick").is_err());
    // The row knows the schema of the template that made it.
    assert_eq!(row.schema(), &people().schema());
}

#[test]
fn two_missing_required_columns_make_one_failure_that_names_both() {
    let failure = people().to_row(&cells(&[("nick", "Al")])).unwrap_err();
    assert_eq!(failure.kind, Kind::ErrorList);
    assert_eq!(failure.message, "Unable to convert cells to a row of 'people'");
    assert_eq!(failure.column, None);
    assert_eq!(failure.line, None);
    assert_eq!(failure.causes.len(), 2);
    assert_eq!(failure.causes[0].kind, Kind::NotFound);
    assert_eq!(failure.causes[0].column, Some("name".to_string()));
    assert_eq!(
        failure.causes[0].message,
        "Row Template 'people' requires a column named 'name' but did not receive one"
    );
    assert_eq!(failure.causes[1].kind, Kind::NotFound);
    assert_eq!(failure.causes[1].column, Some("age".to_string()));
    assert_eq!(
        failure.causes[1].message,
        "Row Template 'people' requires a column named 'age' but did not receive one"
    );
}

#[test]
fn every_bad_cell_of_a_row_is_reported() {
    let mut template = people();
    template.add_column("height", Some(accepts(InstanceType::Number)), false).unwrap();
    let failure = template
        .to_row(&cells(&[("name", "Bob"), ("age", "notanumber"), ("height", "tall")]))
        .unwrap_err();
    assert_eq!(failure.kind, Kind::ErrorList);
    assert_eq!(failure.causes.len(), 2);
    assert_eq!(failure.causes[0].kind, Kind::ConversionError);
    assert_eq!(failure.causes[0].column, Some("age".to_string()));
    assert_eq!(
        failure.causes[0].message,
        "Could not convert cell 'age' holding 'notanumber' to a value for row 'people': Failed to convert 'notanumber' into an integer"
    );
    assert_eq!(failure.causes[1].column, Some("height".to_string()));
    assert_eq!(
        failure.causes[1].message,
        "Could not convert cell 'height' holding 'tall' to a value for row 'people': Failed to convert 'tall' into a number"
    );
}

#[test]
fn a_template_without_a_schema_makes_no_row() {
    let schema = RootSchema { meta_schema: None, title: None, instance_type: None, object: None, rest: None };
    let template = RowTemplate::new("bare".to_string(), Some(schema));
    let failure = template.to_row(&cells(&[("a", "1")])).unwrap_err();
    assert_eq!(failure.kind, Kind::NotFound);
    assert_eq!(failure.message, "Row Template bare does not have a useable schema");
    assert_eq!(template.get_validation().unwrap_err().kind, Kind::NotFound);
    assert_eq!(template.validate_headers(&vec![]).unwrap_err().kind, Kind::NotFound);
    assert_eq!(template.get_cell_schema("a").unwrap_err().kind, Kind::NotFound);
}

#[test]
fn a_column_is_added_once() {
    let mut template = people();
    assert_eq!(template.column_count(), 3);
    let failure = template.add_column("age", None, false).unwrap_err();
    assert_eq!(failure.kind, Kind::DuplicateKey);
    assert_eq!(failure.message, "Duplicate headers named 'age' in table 'people'");
    // The template is as it was before the call.
    assert_eq!(template.column_count(), 3);
    assert_eq!(template.get_cell_schema("age"), Ok(&accepts(InstanceType::Integer)));
    assert_eq!(template.get_headers(), Ok(vec!["name".to_string(), "age".to_string(), "nick".to_string()]));
    // A column without a schema accepts text.
    assert_eq!(template.get_cell_schema("nick"), Ok(&accepts(InstanceType::String)));
    let failure = template.get_cell_schema("none").unwrap_err();
    assert_eq!(failure.kind, Kind::NotFound);
    assert_eq!(failure.message, "No column named 'none' in row template 'people'");
    assert_eq!(template.name(), "people");
}

#[test]
fn headers_must_hold_every_required_column() {
    let template = people();
    let all = vec!["age".to_string(), "other".to_string(), "name".to_string()];
    assert_eq!(template.validate_headers(&all), Ok(()));
    let failure = template.validate_headers(&vec!["nick".to_string()]).unwrap_err();
    assert_eq!(failure.kind, Kind::BadValue);
    assert_eq!(failure.message, "The following required headers were not found: [name, age]");
    let failure = template.validate_headers(&vec!["name".to_string()]).unwrap_err();
    assert_eq!(failure.message, "The following required headers were not found: [age]");
}

#[test]
fn a_template_without_columns_has_no_headers() {
    let template = RowTemplate::new("empty".to_string(), None);
    let failure = template.get_headers().unwrap_err();
    assert_eq!(failure.kind, Kind::BadValue);
    assert_eq!(failure.message, "The table template does not have any headers set");
    assert_eq!(template.validate_headers(&vec![]), Ok(()));
    assert!(template.to_row(&cells(&[("a", "1")])).unwrap().len() == 0);
}

#[test]
fn a_template_follows_its_schema_document() {
    let schema = RootSchema {
        meta_schema: None,
        title: Some("doc".to_string()),
        instance_type: Some(SingleOrVec::Single(InstanceType::Object)),
        object: Some(ObjectValidation {
            properties: vec![
                Property { name: "a".to_string(), schema: Schema::Object(accepts(InstanceType::Integer)) },
                Property { name: "skip".to_string(), schema: Schema::Bool(true) },
                Property { name: "b".to_string(), schema: Schema::Object(accepts(InstanceType::String)) },
                Property { name: "a".to_string(), schema: Schema::Object(accepts(InstanceType::Null)) },
            ],
            required: vec!["b".to_string(), "ghost".to_string()],
        }),
        rest: Some("{\"definitions\":{}}".to_string()),
    };
    assert_eq!(schema.get_subschema("a"), Ok(accepts(InstanceType::Integer)));
    assert_eq!(
        schema.get_subschema(""),
        Ok(SchemaObject {
            title: Some("doc".to_string()),
            instance_type: Some(SingleOrVec::Single(InstanceType::Object)),
            rest: Some("{\"definitions\":{}}".to_string()),
        })
    );
    let failure = schema.get_subschema("skip").unwrap_err();
    assert_eq!(failure.kind, Kind::NotFound);
    assert_eq!(failure.message, "Could not find object schema for path 'skip'");
    let failure = schema.get_subschema("a.b").unwrap_err();
    assert_eq!(failure.message, "Could not find schema for path 'a.b'");

    let template = RowTemplate::from_schema(schema);
    assert_eq!(template.name(), "doc");
    assert_eq!(template.get_headers(), Ok(vec!["a".to_string(), "b".to_string()]));
    assert_eq!(template.get_cell_schema("a"), Ok(&accepts(InstanceType::Integer)));
    let validation = template.get_validation().unwrap();
    assert_eq!(validation.required, vec!["b".to_string()]);
    assert_eq!(validation.properties.len(), 3);
    assert_eq!(template.column_count(), 3);
    // The document keeps its dialect, title and type.
    assert_eq!(template.schema().meta_schema, None);
    assert_eq!(template.schema().title, Some("doc".to_string()));
    assert_eq!(
        template.schema().instance_type,
        Some(SingleOrVec::Single(InstanceType::Object))
    );
    // A member whose schema says nothing is a column of no use.
    let failure = template.get_cell_schema("skip").unwrap_err();
    assert_eq!(failure.kind, Kind::NotFound);
    assert_eq!(
        failure.message,
        "The column named 'skip' in row template 'doc' did not have a proper schema configured"
    );
    let row = template.to_row(&cells(&[("a", "1"), ("b", "x")])).unwrap();
    assert_eq!(row.len(), 2);
    let failure = template.to_row(&cells(&[("a", "1"), ("b", "x"), ("skip", "y")])).unwrap_err();
    assert_eq!(failure.causes.len(), 1);
    assert_eq!(failure.causes[0].kind, Kind::NotFound);
    assert_eq!(failure.causes[0].column, Some("skip".to_string()));
    assert_eq!(
        failure.causes[0].message,
        "Cell skip Row Template doc does not have a useable schema"
    );
    // What else the document says is carried along.
    assert_eq!(template.schema().rest, Some("{\"definitions\":{}}".to_string()));
    let formatted = SchemaObject {
        title: None,
        instance_type: Some(SingleOrVec::Single(InstanceType::String)),
        rest: Some("{\"format\":\"date\"}".to_string()),
    };
    let mut dated = RowTemplate::new("d".to_string(), None);
    dated.add_column("day", Some(formatted.clone()), true).unwrap();
    assert_eq!(dated.get_cell_schema("day"), Ok(&formatted));
    assert_eq!(RowTemplate::from_schema(dated.schema()).get_cell_schema("day"), Ok(&formatted));

    let unnamed = RootSchema { meta_schema: None, title: None, instance_type: None, object: None, rest: None };
    assert_eq!(RowTemplate::from_schema(unnamed.clone()).name(), "Not Named");
    assert_eq!(RowTemplate::from(unnamed).name(), "Not Named");
    let titled = RowTemplate::from(RowTemplate::blank_schema("t".to_string()));
    assert_eq!(titled.name(), "t");
    assert_eq!(titled.column_count(), 0);
}

#[test]
fn a_template_comes_back_from_its_schema_document() {
    let headers = vec!["a".to_string(), "b".to_string(), "c".to_string()];
    let template = RowTemplate::from_headers("sheet".to_string(), &headers).unwrap();
    let document = template.schema();
    assert_eq!(document, {
        let mut expected = RowTemplate::blank_schema("sheet".to_string());
        expected.object = Some(ObjectValidation {
            properties: headers
                .iter()
                .map(|h| Property { name: h.clone(), schema: Schema::Object(accepts(InstanceType::String)) })
                .collect(),
            required: vec![],
        });
        expected
    });
    let again = RowTemplate::from_schema(document);
    assert_eq!(again.name(), "sheet");
    assert_eq!(again.column_count(), 3);
    assert_eq!(again.get_headers(), Ok(headers.clone()));
    assert_eq!(again.get_validation().unwrap().required, Vec::<String>::new());
    assert_eq!(again.schema(), template.schema());

    let people_again = RowTemplate::from_schema(people().schema());
    assert_eq!(people_again.column_count(), 3);
    assert_eq!(
        people_again.get_validation().unwrap().required,
        vec!["name".to_string(), "age".to_string()]
    );
    assert_eq!(people_again.schema(), people().schema());
}

#[test]
fn a_template_keeps_the_document_it_came_from() {
    let document = RootSchema {
        meta_schema: Some("http://json-schema.org/draft-07/schema#".to_string()),
        title: Some("Titled".to_string()),
        instance_type: Some(SingleOrVec::Vec(vec![InstanceType::Object, InstanceType::Null])),
        object: Some(ObjectValidation {
            properties: vec![Property {
                name: "a".to_string(),
                schema: Schema::Object(accepts(InstanceType::Integer)),
            }],
            required: vec!["a".to_string()],
        }),
        rest: None,
    };
    let mut template = RowTemplate::new("named".to_string(), Some(document.clone()));
    assert_eq!(template.name(), "named");
    assert_eq!(template.schema(), document);
    template.add_column("b", None, false).unwrap();
    let grown = template.schema();
    assert_eq!(grown.meta_schema, document.meta_schema);
    assert_eq!(grown.title, document.title);
    assert_eq!(grown.instance_type, document.instance_type);
    assert_eq!(grown.object.unwrap().properties.len(), 2);
}

#[test]
fn the_blank_schema_is_an_object_without_members() {
    let blank = RowTemplate::blank_schema("t".to_string());
    assert_eq!(blank.meta_schema, Some("http://json-schema.org/draft/2019-09/schema#".to_string()));
    assert_eq!(blank.title, Some("t".to_string()));
    assert_eq!(blank.instance_type, Some(SingleOrVec::Single(InstanceType::Object)));
    assert_eq!(blank.object, Some(ObjectValidation { properties: vec![], required: vec![] }));
    assert_eq!(RowTemplate::new("t".to_string(), None).schema(), blank);
}

#[test]
fn headers_that_repeat_are_all_refused() {
    let headers: Vec<String> = ["a", "b", "a", "c", "b"].iter().map(|h| h.to_string()).collect();
    let failure = RowTemplate::from_headers("s".to_string(), &headers).unwrap_err();
    assert_eq!(failure.kind, Kind::ErrorList);
    assert_eq!(failure.message, "Could not build the row template 's' from the headers");
    assert_eq!(failure.causes.len(), 2);
    assert_eq!(failure.causes[0].kind, Kind::DuplicateKey);
    assert_eq!(failure.causes[0].column, Some("a".to_string()));
    assert_eq!(failure.causes[0].message, "Duplicate headers named 'a' in table 's'");
    assert_eq!(failure.causes[1].column, Some("b".to_string()));
}

#[test]
fn text_without_a_hint_stays_text() {
    assert_eq!(RowTemplate::parse_raw("12"), Ok(text("12")));
    assert_eq!(RowTemplate::parse_raw(""), Ok(text("")));
}

#[test]
fn validation_changes_nothing_yet() {
    let mut value = text("x");
    assert_eq!(Validator::validate(&accepts(InstanceType::Integer), &mut value), Ok(()));
    assert_eq!(value, text("x"));
}

#[test]
fn names_are_kept_once_and_in_order() {
    let mut map: NameMap<u8> = NameMap::new();
    assert_eq!(map.add("a".to_string(), 1), None);
    assert_eq!(map.add("b".to_string(), 2), None);
    assert_eq!(map.add("a".to_string(), 3), Some(3));
    assert_eq!(map.len(), 2);
    assert_eq!(map.get("a"), Some(&1));
    assert_eq!(map.position("b"), Some(1));
    assert_eq!(map.position("c"), None);
    assert!(map.put("a".to_string(), 4));
    assert!(!map.put("c".to_string(), 5));
    assert_eq!(map.get("a"), Some(&4));
    assert_eq!(map.name_at(2), "c");
    assert_eq!(map.item_at(2), &5);
    assert_eq!(map.get("zz"), None);
}
