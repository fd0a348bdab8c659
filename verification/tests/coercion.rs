use subpar::base::cell::Cell;
use subpar::base::cell::CellValue;
use subpar::errors::Kind;
use subpar::json::CanonicalValue;
use subpar::number::Number;
use subpar::schema::InstanceType;
use subpar::schema::SchemaObject;
use subpar::schema::SingleOrVec;

fn text(value: &str) -> CanonicalValue {
    CanonicalValue::String(value.to_string())
}

fn raw(value: &str) -> CellValue {
    CellValue::Raw(value.to_string())
}

fn all_cells() -> Vec<CellValue> {
    vec![
        CellValue::Null,
        CellValue::Empty,
        raw("abc"),
        raw("12"),
        raw("1.5"),
        raw(""),
        CellValue::Number(Number::PosInt(7)),
        CellValue::Number(Number::NegInt(-7)),
        CellValue::Number(Number::Float("0.5".to_string())),
        CellValue::String("xyz".to_string()),
        CellValue::String("-3".to_string()),
    ]
}

#[test]
fn union_tries_types_in_declared_order() {
    let cell = Cell::new("c".to_string(), raw("abc"));
    let schema = SchemaObject {
        title: None,
        instance_type: Some(SingleOrVec::Vec(vec![InstanceType::Integer, InstanceType::String])),
        rest: None,
    };
    assert_eq!(cell.to_value(&schema), Ok(text("abc")));

    let number = Cell::new("c".to_string(), raw("42"));
    assert_eq!(number.to_value(&schema), Ok(CanonicalValue::Number(Number::PosInt(42))));

    let swapped = SchemaObject {
        title: None,
        instance_type: Some(SingleOrVec::Vec(vec![InstanceType::String, InstanceType::Integer])),
        rest: None,
    };
    assert_eq!(number.to_value(&swapped), Ok(text("42")));
}

#[test]
fn union_that_takes_nothing_names_every_type() {
    let cell = Cell::new("amount".to_string(), raw("abc"));
    let schema = SchemaObject {
        title: None,
        instance_type: Some(
            SingleOrVec::Vec(vec![InstanceType::Integer, InstanceType::Number, InstanceType::Null]),
        ),
        rest: None,
    };
    let failure = cell.to_value(&schema).unwrap_err();
    assert_eq!(failure.kind, Kind::ConversionError);
    assert_eq!(
        failure.message,
        "Could not convert cell 'amount' into any of [Integer, Number, Null]"
    );
    assert_eq!(failure.column, None);
    assert!(failure.causes.is_empty());

    let none = SchemaObject { title: None, instance_type: Some(SingleOrVec::Vec(vec![])), rest: None };
    let failure = cell.to_value(&none).unwrap_err();
    assert_eq!(failure.message, "Could not convert cell 'amount' into any of []");
}

#[test]
fn null_and_empty_differ_for_text_columns() {
    let missing = CellValue::Null.convert(Some(InstanceType::String)).unwrap_err();
    assert_eq!(missing.kind, Kind::BadValue);
    assert_eq!(missing.message, "Strings are not allowed to be null. Try again");
    assert_eq!(CellValue::Empty.convert(Some(InstanceType::String)), Ok(CanonicalValue::Null));
}

#[test]
fn null_column_takes_cells_without_a_value_only() {
    assert_eq!(CellValue::Null.convert(Some(InstanceType::Null)), Ok(CanonicalValue::Null));
    assert_eq!(CellValue::Empty.convert(Some(InstanceType::Null)), Ok(CanonicalValue::Null));
    for cell in [raw("a"), CellValue::String("a".to_string()), CellValue::Number(Number::PosInt(1))] {
        let failure = cell.convert(Some(InstanceType::Null)).unwrap_err();
        assert_eq!(failure.kind, Kind::ConversionError);
        assert_eq!(failure.message, "Cannot reasonably convert a value into a null. Try again");
    }
}

#[test]
fn number_column_reads_text_as_json_number() {
    let n = InstanceType::Number;
    assert_eq!(raw("12").convert(Some(n)), Ok(CanonicalValue::Number(Number::PosInt(12))));
    assert_eq!(raw("-12").convert(Some(n)), Ok(CanonicalValue::Number(Number::NegInt(-12))));
    assert_eq!(
        CellValue::String("1.5".to_string()).convert(Some(n)),
        Ok(CanonicalValue::Number(Number::Float("1.5".to_string())))
    );
    assert_eq!(
        CellValue::Number(Number::Float("2.5".to_string())).convert(Some(n)),
        Ok(CanonicalValue::Number(Number::Float("2.5".to_string())))
    );
    let failure = raw("12abc").convert(Some(n)).unwrap_err();
    assert_eq!(failure.kind, Kind::ConversionError);
    assert_eq!(failure.message, "Failed to convert '12abc' into a number");
    for cell in [CellValue::Null, CellValue::Empty] {
        let failure = cell.convert(Some(n)).unwrap_err();
        assert_eq!(failure.kind, Kind::ConversionError);
        assert_eq!(failure.message, "Cannot reasonably convert a value into a number. Try again");
    }
}

#[test]
fn integer_column_reads_text_as_integer() {
    let i = InstanceType::Integer;
    assert_eq!(raw("30").convert(Some(i)), Ok(CanonicalValue::Number(Number::PosInt(30))));
    assert_eq!(raw("-30").convert(Some(i)), Ok(CanonicalValue::Number(Number::NegInt(-30))));
    assert_eq!(raw("+30").convert(Some(i)), Ok(CanonicalValue::Number(Number::PosInt(30))));
    assert_eq!(
        CellValue::Number(Number::PosInt(5)).convert(Some(i)),
        Ok(CanonicalValue::Number(Number::PosInt(5)))
    );
    let failure = raw("notanumber").convert(Some(i)).unwrap_err();
    assert_eq!(failure.kind, Kind::ConversionError);
    assert_eq!(failure.message, "Failed to convert 'notanumber' into an integer");
    let failure = raw("1.5").convert(Some(i)).unwrap_err();
    assert_eq!(failure.kind, Kind::ConversionError);
    for cell in [CellValue::Null, CellValue::Empty] {
        let failure = cell.convert(Some(i)).unwrap_err();
        assert_eq!(failure.message, "Cannot reasonably convert a value into an integer. Try again");
    }
}

#[test]
fn text_column_writes_numbers_as_text() {
    let s = InstanceType::String;
    assert_eq!(raw("abc").convert(Some(s)), Ok(text("abc")));
    assert_eq!(CellValue::String("abc".to_string()).convert(Some(s)), Ok(text("abc")));
    assert_eq!(CellValue::Number(Number::PosInt(30)).convert(Some(s)), Ok(text("30")));
    assert_eq!(CellValue::Number(Number::NegInt(-30)).convert(Some(s)), Ok(text("-30")));
    assert_eq!(
        CellValue::Number(Number::Float("1.5".to_string())).convert(Some(s)),
        Ok(text("1.5"))
    );
}

#[test]
fn without_a_type_nothing_fails() {
    assert_eq!(raw("abc").convert(None), Ok(text("abc")));
    assert_eq!(CellValue::String("abc".to_string()).convert(None), Ok(text("abc")));
    assert_eq!(
        CellValue::Number(Number::PosInt(3)).convert(None),
        Ok(CanonicalValue::Number(Number::PosInt(3)))
    );
    assert_eq!(CellValue::Null.convert(None), Ok(CanonicalValue::Null));
    assert_eq!(CellValue::Empty.convert(None), Ok(CanonicalValue::Null));
    for cell in all_cells() {
        assert!(cell.convert(None).is_ok());
    }
}

#[test]
fn types_without_a_conversion_say_so() {
    for (target, name) in [
        (InstanceType::Boolean, "Boolean"),
        (InstanceType::Object, "Object"),
        (InstanceType::Array, "Array"),
    ] {
        for cell in all_cells() {
            let failure = cell.convert(Some(target)).unwrap_err();
            assert_eq!(failure.kind, Kind::NotImplemented);
            assert_eq!(failure.message, format!("Conversion into {} is not implemented", name));
        }
    }
}

#[test]
fn every_conversion_gives_a_value_of_the_type_or_a_failure() {
    let targets = [
        InstanceType::Null,
        InstanceType::Boolean,
        InstanceType::Object,
        InstanceType::Array,
        InstanceType::Number,
        InstanceType::String,
        InstanceType::Integer,
    ];
    for cell in all_cells() {
        for target in targets {
            match cell.convert(Some(target)) {
                Ok(CanonicalValue::Null) => assert!(
                    target == InstanceType::Null
                        || (target == InstanceType::String && cell == CellValue::Empty)
                ),
                Ok(CanonicalValue::Number(n)) => {
                    assert!(target == InstanceType::Number || target == InstanceType::Integer);
                    assert!(n.is_valid());
                }
                Ok(CanonicalValue::String(_)) => assert_eq!(target, InstanceType::String),
                Ok(CanonicalValue::Bool(_)) => panic!("no cell becomes a truth value"),
                Err(e) => assert!(
                    e.kind == Kind::ConversionError
                        || e.kind == Kind::BadValue
                        || e.kind == Kind::NotImplemented
                ),
            }
        }
    }
}

#[test]
fn convert_with_takes_the_number_that_was_read() {
    let cell = raw("whatever");
    let given = Some(Number::PosInt(99));
    assert_eq!(
        cell.convert_with(Some(InstanceType::Number), &given),
        Ok(CanonicalValue::Number(Number::PosInt(99)))
    );
    let failure = cell.convert_with(Some(InstanceType::Number), &None).unwrap_err();
    assert_eq!(failure.message, "Failed to convert 'whatever' into a number");
    // No other column looks at it.
    assert_eq!(cell.convert_with(Some(InstanceType::String), &given), Ok(text("whatever")));
    assert_eq!(raw("5").read_number(), Some(Number::PosInt(5)));
    assert_eq!(raw("five").read_number(), None);
    assert_eq!(CellValue::Empty.read_number(), None);
}

#[test]
fn cells_keep_their_name_and_value() {
    let cell = Cell::new("age".to_string(), raw("30"));
    assert_eq!(cell.name(), "age");
    assert_eq!(cell.value(), &raw("30"));
    assert_eq!(cell.duplicate(), cell);
    assert_eq!(raw("30").duplicate(), raw("30"));
    let schema = SchemaObject { title: None, instance_type: None, rest: None };
    assert_eq!(cell.to_value(&schema), Ok(text("30")));
    let single = SchemaObject {
        title: None,
        instance_type: Some(SingleOrVec::Single(InstanceType::Integer)),
        rest: None,
    };
    assert_eq!(cell.to_value(&single), Ok(CanonicalValue::Number(Number::PosInt(30))));
    assert_eq!(
        cell.to_value_with(&single, &None),
        Ok(CanonicalValue::Number(Number::PosInt(30)))
    );
    assert_eq!(CanonicalValue::Bool(true).duplicate(), CanonicalValue::Bool(true));
    assert_eq!(CellValue::Null.shown(), "<no cell>");
    assert_eq!(CellValue::Empty.shown(), "<empty>");
    assert_eq!(raw("a b").shown(), "a b");
    assert_eq!(CellValue::String("s".to_string()).shown(), "s");
    assert_eq!(CellValue::Number(Number::NegInt(-4)).shown(), "-4");
}
