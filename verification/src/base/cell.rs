//! One cell of a table, and its conversion into the value that a column
//! declares.

use vstd::prelude::*;
use vstd::string::*;
use crate::errors::ErrorView;
use crate::errors::Kind;
use crate::errors::SubparError;
use crate::errors::plain_error;
use crate::json::CanonicalValue;
use crate::json::ValueView;
use crate::number::Number;
use crate::number::NumberView;
use crate::number::integer_of;
use crate::number::json_number_of;
use crate::number::number_view;
use crate::number::parse_integer;
use crate::number::parse_number;
use crate::schema::InstanceType;
use crate::schema::SchemaObject;
use crate::schema::SingleOrVec;
use crate::schema::TypesView;
use crate::schema::list_type_names;
use crate::schema::names_of_types;

verus! {

/// What a reader saw in one cell, before any column type is applied.
#[derive(Clone, PartialEq, Eq, Debug)]
pub enum CellValue {
    /// The column does not exist for this row.
    Null,
    /// The column exists, and the source marked it as having no value.
    Empty,
    /// Text whose type is not yet known, as a plain-text source gives it.
    Raw(String),
    /// A value already known to be a number.
    Number(Number),
    /// A value already known to be text.
    String(String),
}

/// What a `CellValue` holds, as plain values.
pub enum CellView {
    Null,
    Empty,
    Raw(Seq<char>),
    Number(NumberView),
    String(Seq<char>),
}

impl View for CellValue {
    type V = CellView;

    open spec fn view(&self) -> CellView {
        match self {
            CellValue::Null => CellView::Null,
            CellValue::Empty => CellView::Empty,
            CellValue::Raw(t) => CellView::Raw(t@),
            CellValue::Number(n) => CellView::Number(n@),
            CellValue::String(t) => CellView::String(t@),
        }
    }
}

impl CellView {
    /// The text of a cell that holds text, empty for any other.
    pub open spec fn text(self) -> Seq<char> {
        match self {
            CellView::Raw(t) => t,
            CellView::String(t) => t,
            _ => Seq::empty(),
        }
    }

    /// Whether the cell holds text.
    pub open spec fn is_text(self) -> bool {
        self is Raw || self is String
    }

    /// What the cell holds, as messages write it.
    pub open spec fn shown(self) -> Seq<char> {
        match self {
            CellView::Null => "<no cell>"@,
            CellView::Empty => "<empty>"@,
            CellView::Raw(t) => t,
            CellView::String(t) => t,
            CellView::Number(n) => n.text(),
        }
    }
}

/// The message for a value that a null column was asked to take.
pub open spec fn msg_not_null() -> Seq<char> {
    "Cannot reasonably convert a value into a null. Try again"@
}

/// The message for a cell without a value that a number column was asked to take.
pub open spec fn msg_not_number() -> Seq<char> {
    "Cannot reasonably convert a value into a number. Try again"@
}

/// The message for a cell without a value that an integer column was asked to take.
pub open spec fn msg_not_integer() -> Seq<char> {
    "Cannot reasonably convert a value into an integer. Try again"@
}

/// The message for a missing cell that a text column was asked to take.
pub open spec fn msg_null_string() -> Seq<char> {
    "Strings are not allowed to be null. Try again"@
}

/// The message for a text that is no number.
pub open spec fn msg_bad_number(text: Seq<char>) -> Seq<char> {
    "Failed to convert '"@ + text + "' into a number"@
}

/// The message for a text that is no integer.
pub open spec fn msg_bad_integer(text: Seq<char>) -> Seq<char> {
    "Failed to convert '"@ + text + "' into an integer"@
}

/// The message for a column type that no conversion exists for.
pub open spec fn msg_unsupported(target: InstanceType) -> Seq<char> {
    "Conversion into "@ + crate::schema::name_of_type(target) + " is not implemented"@
}

/// The message for a cell that none of the accepted types took.
pub open spec fn msg_no_type(name: Seq<char>, types: Seq<InstanceType>) -> Seq<char> {
    "Could not convert cell '"@ + name + "' into any of ["@ + names_of_types(types) + "]"@
}

/// The value that `cell` becomes under the declared type `target`, where
/// `parsed` is the number read from the cell's text.
///
/// With no declared type nothing is checked: text stays text, a number stays
/// a number, and a cell without a value becomes null.
pub open spec fn coerce_with(
    cell: CellView,
    target: Option<InstanceType>,
    parsed: Option<NumberView>,
) -> Result<ValueView, ErrorView> {
    match target {
        None => match cell {
            CellView::Raw(t) => Ok(ValueView::String(t)),
            CellView::String(t) => Ok(ValueView::String(t)),
            CellView::Number(n) => Ok(ValueView::Number(n)),
            CellView::Null => Ok(ValueView::Null),
            CellView::Empty => Ok(ValueView::Null),
        },
        Some(InstanceType::Null) => match cell {
            CellView::Null => Ok(ValueView::Null),
            CellView::Empty => Ok(ValueView::Null),
            _ => Err(plain_error(Kind::ConversionError, msg_not_null())),
        },
        Some(InstanceType::Number) => match cell {
            CellView::Number(n) => Ok(ValueView::Number(n)),
            CellView::Null => Err(plain_error(Kind::ConversionError, msg_not_number())),
            CellView::Empty => Err(plain_error(Kind::ConversionError, msg_not_number())),
            _ => match parsed {
                Some(n) => Ok(ValueView::Number(n)),
                None => Err(plain_error(Kind::ConversionError, msg_bad_number(cell.text()))),
            },
        },
        Some(InstanceType::Integer) => match cell {
            CellView::Number(n) => Ok(ValueView::Number(n)),
            CellView::Null => Err(plain_error(Kind::ConversionError, msg_not_integer())),
            CellView::Empty => Err(plain_error(Kind::ConversionError, msg_not_integer())),
            _ => match integer_of(cell.text()) {
                Some(i) => Ok(ValueView::Number(NumberView::of_int(i))),
                None => Err(plain_error(Kind::ConversionError, msg_bad_integer(cell.text()))),
            },
        },
        Some(InstanceType::String) => match cell {
            CellView::Null => Err(plain_error(Kind::BadValue, msg_null_string())),
            CellView::Empty => Ok(ValueView::Null),
            CellView::Raw(t) => Ok(ValueView::String(t)),
            CellView::String(t) => Ok(ValueView::String(t)),
            CellView::Number(n) => Ok(ValueView::String(n.text())),
        },
        Some(other) => Err(plain_error(Kind::NotImplemented, msg_unsupported(other))),
    }
}

/// The value that `cell` becomes under the declared type `target`.
pub open spec fn coerce(cell: CellView, target: Option<InstanceType>) -> Result<
    ValueView,
    ErrorView,
> {
    coerce_with(cell, target, json_number_of(cell.text()))
}

/// The first value that `cell` becomes under one of `types`, tried in order
/// from the one at `from` on, where `parsed` is the number read from the
/// cell's text.
pub open spec fn first_accepted_from(
    cell: CellView,
    types: Seq<InstanceType>,
    parsed: Option<NumberView>,
    from: int,
) -> Option<ValueView>
    decreases types.len() - from,
{
    if from < 0 || from >= types.len() {
        None
    } else {
        match coerce_with(cell, Some(types[from]), parsed) {
            Ok(v) => Some(v),
            Err(_) => first_accepted_from(cell, types, parsed, from + 1),
        }
    }
}

/// The first value that `cell` becomes under one of `types`, tried in order,
/// where `parsed` is the number read from the cell's text.
pub open spec fn first_accepted(
    cell: CellView,
    types: Seq<InstanceType>,
    parsed: Option<NumberView>,
) -> Option<ValueView> {
    first_accepted_from(cell, types, parsed, 0)
}

/// The value that the cell `name` becomes under what `declared` accepts,
/// where `parsed` is the number read from the cell's text.
///
/// One declared type is applied as it is. Of several, the first that takes
/// the cell wins; where none does, the failure names all of them.
pub open spec fn cell_value_with(
    name: Seq<char>,
    cell: CellView,
    declared: Option<TypesView>,
    parsed: Option<NumberView>,
) -> Result<ValueView, ErrorView> {
    match declared {
        None => coerce_with(cell, None, parsed),
        Some(TypesView::Single(t)) => coerce_with(cell, Some(t), parsed),
        Some(TypesView::Vec(types)) => match first_accepted(cell, types, parsed) {
            Some(v) => Ok(v),
            None => Err(plain_error(Kind::ConversionError, msg_no_type(name, types))),
        },
    }
}

/// The value that the cell `name` becomes under what `declared` accepts.
pub open spec fn cell_value(name: Seq<char>, cell: CellView, declared: Option<TypesView>) -> Result<
    ValueView,
    ErrorView,
> {
    cell_value_with(name, cell, declared, json_number_of(cell.text()))
}

/// Whether `value` is of the canonical type that `target` stands for.
pub open spec fn has_type(value: ValueView, target: InstanceType) -> bool {
    match target {
        InstanceType::Null => value is Null,
        InstanceType::Boolean => value is Bool,
        InstanceType::Number => value is Number,
        InstanceType::Integer => value is Number,
        InstanceType::String => value is String,
        InstanceType::Object => false,
        InstanceType::Array => false,
    }
}

/// What a conversion hands back, as plain values.
pub open spec fn outcome_view(outcome: Result<CanonicalValue, SubparError>) -> Result<
    ValueView,
    ErrorView,
> {
    match outcome {
        Ok(v) => Ok(v@),
        Err(e) => Err(e@),
    }
}

/// A conversion into a declared type gives a value of that type or a
/// failure, whatever the cell and whatever was read from its text. The one
/// value of another type is the null that a text column makes of a cell
/// marked as empty.
pub proof fn coercion_is_typed(cell: CellView, target: InstanceType, parsed: Option<NumberView>)
    ensures
        match coerce_with(cell, Some(target), parsed) {
            Ok(v) => has_type(v, target) || (target == InstanceType::String && cell is Empty && v
                is Null),
            Err(e) => e.kind == Kind::ConversionError || e.kind == Kind::BadValue || e.kind
                == Kind::NotImplemented,
        },
        // What an integer column reads from a text is an integer.
        target == InstanceType::Integer && cell.is_text() ==> (coerce_with(
            cell,
            Some(target),
            parsed,
        ) matches Ok(v) ==> v matches ValueView::Number(n) && n.is_integer() && n.wf()),
{
}

/// What `union_takes_first` says, for the types from `from` on.
proof fn lemma_first_accepted(
    cell: CellView,
    types: Seq<InstanceType>,
    parsed: Option<NumberView>,
    from: int,
)
    requires
        0 <= from <= types.len(),
    ensures
        match first_accepted_from(cell, types, parsed, from) {
            Some(v) => exists|k: int|
                from <= k < types.len() && coerce_with(cell, Some(#[trigger] types[k]), parsed)
                    == Ok::<ValueView, ErrorView>(v) && forall|j: int|
                    from <= j < k ==> coerce_with(cell, Some(#[trigger] types[j]), parsed) is Err,
            None => forall|j: int|
                from <= j < types.len() ==> coerce_with(cell, Some(#[trigger] types[j]), parsed)
                    is Err,
        },
    decreases types.len() - from,
{
    if from < types.len() {
        lemma_first_accepted(cell, types, parsed, from + 1);
        match coerce_with(cell, Some(types[from]), parsed) {
            Ok(v) => {
                assert(coerce_with(cell, Some(types[from]), parsed) == Ok::<ValueView, ErrorView>(
                    v,
                ));
            },
            Err(_) => {
                match first_accepted_from(cell, types, parsed, from + 1) {
                    Some(v) => {
                        let k = choose|k: int|
                            from + 1 <= k < types.len() && coerce_with(
                                cell,
                                Some(#[trigger] types[k]),
                                parsed,
                            ) == Ok::<ValueView, ErrorView>(v) && forall|j: int|
                                from + 1 <= j < k ==> coerce_with(
                                    cell,
                                    Some(#[trigger] types[j]),
                                    parsed,
                                ) is Err;
                        assert(coerce_with(cell, Some(types[k]), parsed) == Ok::<
                            ValueView,
                            ErrorView,
                        >(v));
                    },
                    None => {},
                }
            },
        }
    }
}

/// With several accepted types, the value is the one that the first
/// accepting type gives: every type before it refused the cell. Where no
/// value comes out, every type refused it.
pub proof fn union_takes_first(cell: CellView, types: Seq<InstanceType>, parsed: Option<NumberView>)
    ensures
        match first_accepted(cell, types, parsed) {
            Some(v) => exists|k: int|
                0 <= k < types.len() && coerce_with(cell, Some(#[trigger] types[k]), parsed) == Ok::<
                    ValueView,
                    ErrorView,
                >(v) && forall|j: int|
                    0 <= j < k ==> coerce_with(cell, Some(#[trigger] types[j]), parsed) is Err,
            None => forall|j: int|
                0 <= j < types.len() ==> coerce_with(cell, Some(#[trigger] types[j]), parsed) is Err,
        },
{
    lemma_first_accepted(cell, types, parsed, 0);
}

/// With several accepted types, too, a value is of one of the declared
/// types: of the one that took the cell.
pub proof fn union_is_typed(cell: CellView, types: Seq<InstanceType>, parsed: Option<NumberView>)
    ensures
        first_accepted(cell, types, parsed) matches Some(v) ==> exists|k: int|
            0 <= k < types.len() && (has_type(v, #[trigger] types[k]) || (types[k]
                == InstanceType::String && cell is Empty && v is Null)),
{
    union_takes_first(cell, types, parsed);
    match first_accepted(cell, types, parsed) {
        Some(v) => {
            let k = choose|k: int|
                0 <= k < types.len() && coerce_with(cell, Some(#[trigger] types[k]), parsed) == Ok::<
                    ValueView,
                    ErrorView,
                >(v) && forall|j: int|
                    0 <= j < k ==> coerce_with(cell, Some(#[trigger] types[j]), parsed) is Err;
            coercion_is_typed(cell, types[k], parsed);
        },
        None => {},
    }
}

/// What is read from the text of a cell does not matter to a cell that holds
/// no text.
proof fn lemma_parsed_unused(
    cell: CellView,
    types: Seq<InstanceType>,
    p: Option<NumberView>,
    q: Option<NumberView>,
    from: int,
)
    requires
        !cell.is_text(),
        0 <= from <= types.len(),
    ensures
        first_accepted_from(cell, types, p, from) == first_accepted_from(cell, types, q, from),
    decreases types.len() - from,
{
    if from < types.len() {
        lemma_parsed_unused(cell, types, p, q, from + 1);
    }
}

impl CellValue {
    /// A copy of the cell value.
    pub fn duplicate(&self) -> (copy: CellValue)
        ensures
            copy@ == self@,
    {
        match self {
            CellValue::Null => CellValue::Null,
            CellValue::Empty => CellValue::Empty,
            CellValue::Raw(t) => CellValue::Raw(t.clone()),
            CellValue::Number(n) => CellValue::Number(n.duplicate()),
            CellValue::String(t) => CellValue::String(t.clone()),
        }
    }

    /// What the cell holds, as messages write it.
    pub fn shown(&self) -> (text: String)
        ensures
            text@ == self@.shown(),
    {
        match self {
            CellValue::Null => "<no cell>".to_owned(),
            CellValue::Empty => "<empty>".to_owned(),
            CellValue::Raw(t) => t.clone(),
            CellValue::String(t) => t.clone(),
            CellValue::Number(n) => n.to_text(),
        }
    }

    /// The number that the text of the cell writes, for a cell that holds text.
    pub fn read_number(&self) -> (parsed: Option<Number>)
        ensures
            self@.is_text() ==> number_view(parsed) == json_number_of(self@.text()),
            !self@.is_text() ==> parsed is None,
            parsed matches Some(n) ==> n.wf(),
    {
        match self {
            CellValue::Raw(t) => parse_number(t.as_str()),
            CellValue::String(t) => parse_number(t.as_str()),
            _ => None,
        }
    }

    /// Converts the cell into the type `i_type`, given the number `parsed`
    /// that was read from its text.
    pub fn convert_with(&self, i_type: Option<InstanceType>, parsed: &Option<Number>) -> (value:
        Result<CanonicalValue, SubparError>)
        ensures
            outcome_view(value) == coerce_with(self@, i_type, number_view(*parsed)),
    {
        match i_type {
            None => match self {
                CellValue::Raw(t) => Ok(CanonicalValue::String(t.clone())),
                CellValue::String(t) => Ok(CanonicalValue::String(t.clone())),
                CellValue::Number(n) => Ok(CanonicalValue::Number(n.duplicate())),
                CellValue::Null => Ok(CanonicalValue::Null),
                CellValue::Empty => Ok(CanonicalValue::Null),
            },
            Some(InstanceType::Null) => match self {
                CellValue::Null => Ok(CanonicalValue::Null),
                CellValue::Empty => Ok(CanonicalValue::Null),
                _ => Err(
                    SubparError::of(
                        Kind::ConversionError,
                        "Cannot reasonably convert a value into a null. Try again",
                    ),
                ),
            },
            Some(InstanceType::Number) => match self {
                CellValue::Number(n) => Ok(CanonicalValue::Number(n.duplicate())),
                CellValue::Null => Err(
                    SubparError::of(
                        Kind::ConversionError,
                        "Cannot reasonably convert a value into a number. Try again",
                    ),
                ),
                CellValue::Empty => Err(
                    SubparError::of(
                        Kind::ConversionError,
                        "Cannot reasonably convert a value into a number. Try again",
                    ),
                ),
                CellValue::Raw(t) => number_or_failure(t, parsed),
                CellValue::String(t) => number_or_failure(t, parsed),
            },
            Some(InstanceType::Integer) => match self {
                CellValue::Number(n) => Ok(CanonicalValue::Number(n.duplicate())),
                CellValue::Null => Err(
                    SubparError::of(
                        Kind::ConversionError,
                        "Cannot reasonably convert a value into an integer. Try again",
                    ),
                ),
                CellValue::Empty => Err(
                    SubparError::of(
                        Kind::ConversionError,
                        "Cannot reasonably convert a value into an integer. Try again",
                    ),
                ),
                CellValue::Raw(t) => integer_or_failure(t),
                CellValue::String(t) => integer_or_failure(t),
            },
            Some(InstanceType::String) => match self {
                CellValue::Null => Err(
                    SubparError::of(Kind::BadValue, "Strings are not allowed to be null. Try again"),
                ),
                CellValue::Empty => Ok(CanonicalValue::Null),
                CellValue::Raw(t) => Ok(CanonicalValue::String(t.clone())),
                CellValue::String(t) => Ok(CanonicalValue::String(t.clone())),
                CellValue::Number(n) => Ok(CanonicalValue::String(n.to_text())),
            },
            Some(other) => {
                let mut message = "Conversion into ".to_owned();
                message.append(other.name());
                message.append(" is not implemented");
                Err(SubparError::new(Kind::NotImplemented, message))
            },
        }
    }

    /// Converts the cell into the type `i_type`.
    pub fn convert(&self, i_type: Option<InstanceType>) -> (value: Result<
        CanonicalValue,
        SubparError,
    >)
        ensures
            outcome_view(value) == coerce(self@, i_type),
    {
        let parsed = if i_type == Some(InstanceType::Number) {
            self.read_number()
        } else {
            None
        };
        proof {
            // Only a number column looks at what was read from the text.
            assert(coerce_with(self@, i_type, number_view(parsed)) == coerce(self@, i_type));
        }
        self.convert_with(i_type, &parsed)
    }
}

/// The number that was read from `text`, or the failure that says that
/// `text` is no number.
fn number_or_failure(text: &String, parsed: &Option<Number>) -> (value: Result<
    CanonicalValue,
    SubparError,
>)
    ensures
        outcome_view(value) == match number_view(*parsed) {
            Some(n) => Ok::<ValueView, ErrorView>(ValueView::Number(n)),
            None => Err::<ValueView, ErrorView>(
                plain_error(Kind::ConversionError, msg_bad_number(text@)),
            ),
        },
{
    match parsed {
        Some(n) => Ok(CanonicalValue::Number(n.duplicate())),
        None => {
            let mut message = "Failed to convert '".to_owned();
            message.append(text.as_str());
            message.append("' into a number");
            Err(SubparError::new(Kind::ConversionError, message))
        },
    }
}

/// The integer that `text` writes, or the failure that says that it writes
/// none.
fn integer_or_failure(text: &String) -> (value: Result<CanonicalValue, SubparError>)
    ensures
        outcome_view(value) == match integer_of(text@) {
            Some(i) => Ok::<ValueView, ErrorView>(ValueView::Number(NumberView::of_int(i))),
            None => Err::<ValueView, ErrorView>(
                plain_error(Kind::ConversionError, msg_bad_integer(text@)),
            ),
        },
{
    match parse_integer(text.as_str()) {
        Some(i) => Ok(CanonicalValue::Number(Number::from_i64(i))),
        None => {
            let mut message = "Failed to convert '".to_owned();
            message.append(text.as_str());
            message.append("' into an integer");
            Err(SubparError::new(Kind::ConversionError, message))
        },
    }
}

/// A cell under the name of its column.
#[derive(Clone, PartialEq, Eq, Debug)]
pub struct Cell {
    name: String,
    value: CellValue,
}

/// What a `Cell` holds, as plain values.
pub struct NamedCellView {
    pub name: Seq<char>,
    pub value: CellView,
}

impl View for Cell {
    type V = NamedCellView;

    closed spec fn view(&self) -> NamedCellView {
        NamedCellView { name: self.name@, value: self.value@ }
    }
}

impl Cell {
    pub fn new(name: String, value: CellValue) -> (cell: Cell)
        ensures
            cell@ == (NamedCellView { name: name@, value: value@ }),
    {
        Cell { name, value }
    }

    /// The name of the column that the cell stands in.
    pub fn name(&self) -> (name: String)
        ensures
            name@ == self@.name,
    {
        self.name.clone()
    }

    /// What the reader saw in the cell.
    pub fn value(&self) -> (value: &CellValue)
        ensures
            value@ == self@.value,
    {
        &self.value
    }

    /// A copy of the cell.
    pub fn duplicate(&self) -> (copy: Cell)
        ensures
            copy@ == self@,
    {
        Cell { name: self.name.clone(), value: self.value.duplicate() }
    }

    /// Converts the cell into what `schema` accepts, given the number
    /// `parsed` that was read from its text.
    pub fn to_value_with(&self, schema: &SchemaObject, parsed: &Option<Number>) -> (value: Result<
        CanonicalValue,
        SubparError,
    >)
        ensures
            outcome_view(value) == cell_value_with(
                self@.name,
                self@.value,
                schema@.instance_type,
                number_view(*parsed),
            ),
    {
        match &schema.instance_type {
            None => self.value.convert_with(None, parsed),
            Some(SingleOrVec::Single(i_type)) => self.value.convert_with(Some(*i_type), parsed),
            Some(SingleOrVec::Vec(i_types)) => {
                let ghost cell = self@.value;
                let ghost p = number_view(*parsed);
                let mut i: usize = 0;
                while i < i_types.len()
                    invariant
                        i <= i_types.len(),
                        cell == self@.value,
                        p == number_view(*parsed),
                        schema@.instance_type == Some(TypesView::Vec(i_types@)),
                        first_accepted(cell, i_types@, p) == first_accepted_from(
                            cell,
                            i_types@,
                            p,
                            i as int,
                        ),
                    decreases i_types.len() - i,
                {
                    match self.value.convert_with(Some(i_types[i]), parsed) {
                        Ok(v) => {
                            return Ok(v);
                        },
                        Err(_) => {},
                    }
                    i = i + 1;
                }
                let mut message = "Could not convert cell '".to_owned();
                message.append(self.name.as_str());
                message.append("' into any of [");
                let names = list_type_names(i_types);
                message.append(names.as_str());
                message.append("]");
                Err(SubparError::new(Kind::ConversionError, message))
            },
        }
    }

    /// Converts the cell into what `schema` accepts.
    pub fn to_value(&self, schema: &SchemaObject) -> (value: Result<CanonicalValue, SubparError>)
        ensures
            outcome_view(value) == cell_value(self@.name, self@.value, schema@.instance_type),
    {
        let parsed = self.value.read_number();
        proof {
            let cell = self@.value;
            let p = number_view(parsed);
            let q = json_number_of(cell.text());
            if !cell.is_text() {
                match schema@.instance_type {
                    Some(TypesView::Vec(types)) => {
                        lemma_parsed_unused(cell, types, p, q, 0);
                    },
                    _ => {},
                }
            }
        }
        self.to_value_with(schema, &parsed)
    }
}

} // verus!
