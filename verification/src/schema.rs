//! The schema document of a row: which columns it has, what each accepts and
//! which of them must be there.

use vstd::prelude::*;
use vstd::string::*;
use crate::errors::ErrorView;
use crate::errors::Kind;
use crate::errors::SubparError;
use crate::errors::copy_text;
use crate::errors::plain_error;
use crate::errors::text_view;
use crate::text::concat3;
use crate::text::views_of;

verus! {

/// The types that a column can declare.
#[derive(Clone, Copy, PartialEq, Eq, Hash, Debug, Structural)]
pub enum InstanceType {
    Null,
    Boolean,
    Object,
    Array,
    Number,
    String,
    Integer,
}

/// The name of a type, as messages write it.
pub open spec fn name_of_type(t: InstanceType) -> Seq<char> {
    match t {
        InstanceType::Null => "Null"@,
        InstanceType::Boolean => "Boolean"@,
        InstanceType::Object => "Object"@,
        InstanceType::Array => "Array"@,
        InstanceType::Number => "Number"@,
        InstanceType::String => "String"@,
        InstanceType::Integer => "Integer"@,
    }
}

/// The names of `types`, in order, with a comma and a space between two.
pub open spec fn names_of_types(types: Seq<InstanceType>) -> Seq<char>
    decreases types.len(),
{
    if types.len() == 0 {
        Seq::empty()
    } else if types.len() == 1 {
        name_of_type(types[0])
    } else {
        names_of_types(types.drop_last()) + ", "@ + name_of_type(types.last())
    }
}

impl InstanceType {
    /// The name of the type.
    pub fn name(&self) -> (name: &'static str)
        ensures
            name@ == name_of_type(*self),
    {
        match self {
            InstanceType::Null => "Null",
            InstanceType::Boolean => "Boolean",
            InstanceType::Object => "Object",
            InstanceType::Array => "Array",
            InstanceType::Number => "Number",
            InstanceType::String => "String",
            InstanceType::Integer => "Integer",
        }
    }
}

/// Writes the names of `types`, in order, with a comma and a space between two.
pub fn list_type_names(types: &Vec<InstanceType>) -> (text: String)
    ensures
        text@ == names_of_types(types@),
{
    let mut text = String::new();
    let mut i: usize = 0;
    while i < types.len()
        invariant
            i <= types.len(),
            text@ == names_of_types(types@.take(i as int)),
        decreases types.len() - i,
    {
        assert(types@.take(i + 1).drop_last() == types@.take(i as int));
        if i > 0 {
            text.append(", ");
        }
        text.append(types[i].name());
        i = i + 1;
    }
    assert(types@.take(i as int) == types@);
    text
}

/// One accepted type, or several in the order in which they are to be tried.
#[derive(Clone, PartialEq, Eq, Debug)]
pub enum SingleOrVec {
    Single(InstanceType),
    Vec(Vec<InstanceType>),
}

/// What a `SingleOrVec` holds, as plain values.
pub enum TypesView {
    Single(InstanceType),
    Vec(Seq<InstanceType>),
}

impl View for SingleOrVec {
    type V = TypesView;

    open spec fn view(&self) -> TypesView {
        match self {
            SingleOrVec::Single(t) => TypesView::Single(*t),
            SingleOrVec::Vec(types) => TypesView::Vec(types@),
        }
    }
}

/// The accepted types of a column that may declare none.
pub open spec fn types_view(types: Option<SingleOrVec>) -> Option<TypesView> {
    match types {
        Some(t) => Some(t@),
        None => None,
    }
}

impl SingleOrVec {
    /// A copy of the declaration.
    pub fn duplicate(&self) -> (copy: SingleOrVec)
        ensures
            copy@ == self@,
    {
        match self {
            SingleOrVec::Single(t) => SingleOrVec::Single(*t),
            SingleOrVec::Vec(types) => {
                let mut out: Vec<InstanceType> = Vec::new();
                let mut i: usize = 0;
                while i < types.len()
                    invariant
                        i <= types.len(),
                        out@ == types@.take(i as int),
                    decreases types.len() - i,
                {
                    out.push(types[i]);
                    i = i + 1;
                    assert(out@ == types@.take(i as int));
                }
                assert(types@.take(i as int) == types@);
                SingleOrVec::Vec(out)
            },
        }
    }
}

/// What a schema says of one value.
#[derive(Clone, PartialEq, Eq, Debug)]
pub struct SchemaObject {
    pub title: Option<String>,
    /// The accepted type or types. `None` accepts anything.
    pub instance_type: Option<SingleOrVec>,
    /// Whatever else the schema says, as JSON text. It is carried along
    /// untouched.
    pub rest: Option<String>,
}

/// What a `SchemaObject` holds, as plain values.
pub struct SchemaObjectView {
    pub title: Option<Seq<char>>,
    pub instance_type: Option<TypesView>,
    pub rest: Option<Seq<char>>,
}

impl View for SchemaObject {
    type V = SchemaObjectView;

    open spec fn view(&self) -> SchemaObjectView {
        SchemaObjectView {
            title: text_view(self.title),
            instance_type: types_view(self.instance_type),
            rest: text_view(self.rest),
        }
    }
}

impl SchemaObject {
    /// The schema of a column that accepts text.
    pub open spec fn text_column() -> SchemaObjectView {
        SchemaObjectView {
            title: None,
            instance_type: Some(TypesView::Single(InstanceType::String)),
            rest: None,
        }
    }

    /// A copy of the schema.
    pub fn duplicate(&self) -> (copy: SchemaObject)
        ensures
            copy@ == self@,
    {
        SchemaObject {
            title: copy_text(&self.title),
            instance_type: match &self.instance_type {
                Some(t) => Some(t.duplicate()),
                None => None,
            },
            rest: copy_text(&self.rest),
        }
    }
}

/// A schema: one that accepts all or nothing, or one that says what it accepts.
#[derive(Clone, PartialEq, Eq, Debug)]
pub enum Schema {
    Bool(bool),
    Object(SchemaObject),
}

/// What a `Schema` holds, as plain values.
pub enum SchemaView {
    Bool(bool),
    Object(SchemaObjectView),
}

impl View for Schema {
    type V = SchemaView;

    open spec fn view(&self) -> SchemaView {
        match self {
            Schema::Bool(b) => SchemaView::Bool(*b),
            Schema::Object(o) => SchemaView::Object(o@),
        }
    }
}

impl Schema {
    /// A copy of the schema.
    pub fn duplicate(&self) -> (copy: Schema)
        ensures
            copy@ == self@,
    {
        match self {
            Schema::Bool(b) => Schema::Bool(*b),
            Schema::Object(o) => Schema::Object(o.duplicate()),
        }
    }
}

/// One named member of an object, with the schema of its value.
#[derive(Clone, PartialEq, Eq, Debug)]
pub struct Property {
    pub name: String,
    pub schema: Schema,
}

/// What a `Property` holds, as plain values.
pub struct PropertyView {
    pub name: Seq<char>,
    pub schema: SchemaView,
}

impl View for Property {
    type V = PropertyView;

    open spec fn view(&self) -> PropertyView {
        PropertyView { name: self.name@, schema: self.schema@ }
    }
}

/// What a schema says of an object: its members, and the names of those
/// that must be there.
#[derive(Clone, PartialEq, Eq, Debug)]
pub struct ObjectValidation {
    pub properties: Vec<Property>,
    pub required: Vec<String>,
}

/// What an `ObjectValidation` holds, as plain values.
pub struct ObjectValidationView {
    pub properties: Seq<PropertyView>,
    pub required: Seq<Seq<char>>,
}

/// What each of `properties` holds, in order.
pub open spec fn property_views(properties: Seq<Property>) -> Seq<PropertyView> {
    properties.map_values(|p: Property| p@)
}

impl View for ObjectValidation {
    type V = ObjectValidationView;

    open spec fn view(&self) -> ObjectValidationView {
        ObjectValidationView {
            properties: property_views(self.properties@),
            required: views_of(self.required@),
        }
    }
}

/// What an object schema that may be absent holds.
pub open spec fn validation_view(object: Option<ObjectValidation>) -> Option<ObjectValidationView> {
    match object {
        Some(o) => Some(o@),
        None => None,
    }
}

impl ObjectValidation {
    /// An object without members.
    pub fn new() -> (object: ObjectValidation)
        ensures
            object@.properties.len() == 0,
            object@.required.len() == 0,
    {
        ObjectValidation { properties: Vec::new(), required: Vec::new() }
    }
}

/// The schema document of a row.
#[derive(Clone, PartialEq, Eq, Debug)]
pub struct RootSchema {
    /// The dialect that the document is written in.
    pub meta_schema: Option<String>,
    pub title: Option<String>,
    pub instance_type: Option<SingleOrVec>,
    /// What the document says of the members of a row.
    pub object: Option<ObjectValidation>,
    /// Whatever else the document says, as JSON text. It is carried along
    /// untouched.
    pub rest: Option<String>,
}

/// What a `RootSchema` holds, as plain values.
pub struct RootSchemaView {
    pub meta_schema: Option<Seq<char>>,
    pub title: Option<Seq<char>>,
    pub instance_type: Option<TypesView>,
    pub object: Option<ObjectValidationView>,
    pub rest: Option<Seq<char>>,
}

impl View for RootSchema {
    type V = RootSchemaView;

    open spec fn view(&self) -> RootSchemaView {
        RootSchemaView {
            meta_schema: text_view(self.meta_schema),
            title: text_view(self.title),
            instance_type: types_view(self.instance_type),
            object: validation_view(self.object),
            rest: text_view(self.rest),
        }
    }
}

/// The dialect that schema documents are written in.
pub open spec fn dialect() -> Seq<char> {
    "http://json-schema.org/draft/2019-09/schema#"@
}

/// The document with the given title and members, for rows that are
/// objects; `rest` is whatever else it says.
pub open spec fn document(
    title: Seq<char>,
    object: Option<ObjectValidationView>,
    rest: Option<Seq<char>>,
) -> RootSchemaView {
    RootSchemaView {
        meta_schema: Some(dialect()),
        title: Some(title),
        instance_type: Some(TypesView::Single(InstanceType::Object)),
        object,
        rest,
    }
}

/// Whether `text` is one of `texts`.
pub fn contains_text(texts: &Vec<String>, text: &str) -> (found: bool)
    ensures
        found == views_of(texts@).contains(text@),
{
    let wanted = text.to_owned();
    let mut i: usize = 0;
    while i < texts.len()
        invariant
            i <= texts.len(),
            wanted@ == text@,
            forall|j: int| 0 <= j < i ==> views_of(texts@)[j] != text@,
        decreases texts.len() - i,
    {
        if texts[i] == wanted {
            assert(views_of(texts@)[i as int] == text@);
            return true;
        }
        i = i + 1;
    }
    false
}

/// Where the member `name` stands first among `properties`, `None` where
/// there is no such member.
pub open spec fn member_index(properties: Seq<PropertyView>, name: Seq<char>) -> Option<int>
    decreases properties.len(),
{
    if properties.len() == 0 {
        None
    } else {
        match member_index(properties.drop_last(), name) {
            Some(i) => Some(i),
            None => if properties.last().name == name {
                Some(properties.len() - 1)
            } else {
                None
            },
        }
    }
}

/// The message for a path that leads to no schema.
pub open spec fn msg_no_subschema(path: Seq<char>) -> Seq<char> {
    "Could not find schema for path '"@ + path + "'"@
}

/// The message for a path that leads to a schema that says nothing.
pub open spec fn msg_no_object_schema(path: Seq<char>) -> Seq<char> {
    "Could not find object schema for path '"@ + path + "'"@
}

/// The schema that the document holds at `path`: the document itself for
/// the empty path, and for a name the schema of the first member of that
/// name. Members have no members of their own, so no longer path leads
/// anywhere.
pub open spec fn subschema(schema: RootSchemaView, path: Seq<char>) -> Result<
    SchemaObjectView,
    ErrorView,
> {
    if path.len() == 0 {
        Ok(
            SchemaObjectView {
                title: schema.title,
                instance_type: schema.instance_type,
                rest: schema.rest,
            },
        )
    } else {
        match schema.object {
            None => Err(plain_error(Kind::NotFound, msg_no_subschema(path))),
            Some(object) => match member_index(object.properties, path) {
                None => Err(plain_error(Kind::NotFound, msg_no_subschema(path))),
                Some(i) => match object.properties[i].schema {
                    SchemaView::Object(o) => Ok(o),
                    SchemaView::Bool(_) => Err(
                        plain_error(Kind::NotFound, msg_no_object_schema(path)),
                    ),
                },
            },
        }
    }
}

impl RootSchema {
    /// The failure of a path that leads to no schema.
    fn no_subschema(path: &str) -> (e: SubparError)
        ensures
            e@ == plain_error(Kind::NotFound, msg_no_subschema(path@)),
    {
        SubparError::new(Kind::NotFound, concat3("Could not find schema for path '", path, "'"))
    }

    /// Retrieves the schema at `path`. The empty path leads to the document
    /// itself.
    pub fn get_subschema(&self, path: &str) -> (schema: Result<SchemaObject, SubparError>)
        ensures
            match subschema(self@, path@) {
                Ok(expected) => schema matches Ok(s) && s@ == expected,
                Err(failure) => schema matches Err(e) && e@ == failure,
            },
    {
        if path.unicode_len() == 0 {
            return Ok(
                SchemaObject {
                    title: copy_text(&self.title),
                    instance_type: match &self.instance_type {
                        Some(t) => Some(t.duplicate()),
                        None => None,
                    },
                    rest: copy_text(&self.rest),
                },
            );
        }
        let object = match &self.object {
            Some(object) => object,
            None => {
                return Err(RootSchema::no_subschema(path));
            },
        };
        let wanted = path.to_owned();
        let ghost properties = object@.properties;
        let mut i: usize = 0;
        while i < object.properties.len()
            invariant
                i <= object.properties.len(),
                wanted@ == path@,
                path@.len() > 0,
                self@.object == Some(object@),
                properties == object@.properties,
                member_index(properties.take(i as int), path@) is None,
            decreases object.properties.len() - i,
        {
            let property = &object.properties[i];
            proof {
                assert(properties.take(i + 1).drop_last() == properties.take(i as int));
                assert(properties.take(i + 1).last() == property@);
            }
            if property.name == wanted {
                proof {
                    assert(properties[i as int] == property@);
                    lemma_member_found(properties, path@, i as int);
                }
                return match &property.schema {
                    Schema::Object(o) => Ok(o.duplicate()),
                    Schema::Bool(_) => Err(
                        SubparError::new(
                            Kind::NotFound,
                            concat3("Could not find object schema for path '", path, "'"),
                        ),
                    ),
                };
            }
            i = i + 1;
        }
        assert(properties.take(i as int) == properties);
        Err(RootSchema::no_subschema(path))
    }
}

/// A member that is found among the first members is found among all.
proof fn lemma_member_found(properties: Seq<PropertyView>, name: Seq<char>, i: int)
    requires
        0 <= i < properties.len(),
        properties[i].name == name,
        member_index(properties.take(i), name) is None,
    ensures
        member_index(properties, name) == Some(i),
    decreases properties.len() - i,
{
    assert(properties.take(i + 1).drop_last() == properties.take(i));
    assert(properties.take(i + 1).last() == properties[i]);
    lemma_member_stays(properties, name, i, properties.len() as int);
    assert(properties.take(properties.len() as int) == properties);
}

/// What was found among the first `k` members is found among any more.
proof fn lemma_member_stays(properties: Seq<PropertyView>, name: Seq<char>, i: int, k: int)
    requires
        0 <= i < k <= properties.len(),
        member_index(properties.take(i + 1), name) == Some(i),
    ensures
        member_index(properties.take(k), name) == Some(i),
    decreases k,
{
    if k > i + 1 {
        lemma_member_stays(properties, name, i, k - 1);
        assert(properties.take(k).drop_last() == properties.take(k - 1));
    }
}

} // verus!
