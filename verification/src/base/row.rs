//! Rows and the templates that say how a row must look.
//!
//! A row is a set of canonical values, each under the name of its column. A
//! template declares the columns: what each accepts and which must be there.

use vstd::prelude::*;
use vstd::string::*;
use crate::base::cell::Cell;
use crate::base::cell::NamedCellView;
use crate::base::cell::cell_value;
use crate::errors::Cause;
use crate::errors::CauseView;
use crate::errors::ErrorView;
use crate::errors::Kind;
use crate::errors::SubparError;
use crate::errors::cause_views;
use crate::errors::copy_text;
use crate::errors::plain_error;
use crate::errors::text_view;
use crate::json::CanonicalValue;
use crate::json::ValueView;
use crate::names::NameMap;
use crate::names::distinct;
use crate::names::index_in;
use crate::names::lemma_distinct_push;
use crate::names::lemma_index_absent;
use crate::names::lemma_index_push;
use crate::schema::InstanceType;
use crate::schema::ObjectValidation;
use crate::schema::ObjectValidationView;
use crate::schema::Property;
use crate::schema::PropertyView;
use crate::schema::RootSchema;
use crate::schema::RootSchemaView;
use crate::schema::Schema;
use crate::schema::SchemaObject;
use crate::schema::SchemaObjectView;
use crate::schema::SchemaView;
use crate::schema::SingleOrVec;
use crate::schema::contains_text;
use crate::schema::dialect;
use crate::schema::document;
use crate::schema::types_view;
use crate::schema::TypesView;
use crate::text::concat3;
use crate::text::concat5;
use crate::text::join;
use crate::text::joined;
use crate::text::views_of;

verus! {

/// What a template says of one column, but for its name.
#[derive(Debug)]
pub struct Column {
    /// What the column accepts; a schema that says nothing is of no use to
    /// a cell.
    pub validation: Schema,
    pub required: bool,
}

/// One column of a template, as plain values.
pub struct ColumnView {
    pub name: Seq<char>,
    pub validation: SchemaView,
    pub required: bool,
}

/// A template, as plain values.
pub struct TemplateView {
    pub name: Seq<char>,
    /// The columns, in the order in which they were declared.
    pub columns: Seq<ColumnView>,
    /// Whether the template says anything of the members of a row.
    pub has_validation: bool,
    /// The dialect that the schema document of the template is written in.
    pub meta_schema: Option<Seq<char>>,
    /// The title of the schema document.
    pub title: Option<Seq<char>>,
    /// What the schema document says that a row is.
    pub instance_type: Option<TypesView>,
    /// Whatever else the schema document of the template says, as JSON text.
    pub rest: Option<Seq<char>>,
}

impl TemplateView {
    /// No two columns have one name, and only a template that says
    /// something of the members of a row has columns.
    pub open spec fn wf(self) -> bool {
        &&& distinct(column_names(self.columns))
        &&& self.has_validation || self.columns.len() == 0
    }
}

/// The columns that stand under `names` with what `items` say of them.
pub open spec fn column_views(names: Seq<Seq<char>>, items: Seq<Column>) -> Seq<ColumnView> {
    Seq::new(
        names.len(),
        |i: int|
            ColumnView {
                name: names[i],
                validation: items[i].validation@,
                required: items[i].required,
            },
    )
}

/// The names of `columns`, in order.
pub open spec fn column_names(columns: Seq<ColumnView>) -> Seq<Seq<char>> {
    columns.map_values(|c: ColumnView| c.name)
}

/// The columns that a schema document declares: one for each member, in
/// the order of the members. Of two members of one name the first counts.
/// A column must be there where `required` names it.
pub open spec fn columns_of(properties: Seq<PropertyView>, required: Seq<Seq<char>>) -> Seq<
    ColumnView,
>
    decreases properties.len(),
{
    if properties.len() == 0 {
        Seq::empty()
    } else {
        let before = columns_of(properties.drop_last(), required);
        let p = properties.last();
        if index_in(column_names(before), p.name) is None {
            before.push(
                ColumnView {
                    name: p.name,
                    validation: p.schema,
                    required: required.contains(p.name),
                },
            )
        } else {
            before
        }
    }
}

/// The template without columns whose schema document is the blank one.
pub open spec fn blank_template(name: Seq<char>) -> TemplateView {
    TemplateView {
        name,
        columns: Seq::empty(),
        has_validation: true,
        meta_schema: Some(dialect()),
        title: Some(name),
        instance_type: Some(TypesView::Single(InstanceType::Object)),
        rest: None,
    }
}

/// The template that the document `schema` declares under the name `name`;
/// without a document, a template without columns.
pub open spec fn template_of(name: Seq<char>, schema: Option<RootSchemaView>) -> TemplateView {
    match schema {
        None => blank_template(name),
        Some(doc) => TemplateView {
            name,
            columns: match doc.object {
                Some(v) => columns_of(v.properties, v.required),
                None => Seq::empty(),
            },
            has_validation: doc.object is Some,
            meta_schema: doc.meta_schema,
            title: doc.title,
            instance_type: doc.instance_type,
            rest: doc.rest,
        },
    }
}

/// The name under which a document declares its template.
pub open spec fn title_of(schema: RootSchemaView) -> Seq<char> {
    match schema.title {
        Some(t) => t,
        None => "Not Named"@,
    }
}

/// The members that stand for `columns` in a schema document.
pub open spec fn properties_of(columns: Seq<ColumnView>) -> Seq<PropertyView> {
    columns.map_values(
        |c: ColumnView| PropertyView { name: c.name, schema: c.validation },
    )
}

/// The names of those of `columns` that must be there, in order.
pub open spec fn required_of(columns: Seq<ColumnView>) -> Seq<Seq<char>>
    decreases columns.len(),
{
    if columns.len() == 0 {
        Seq::empty()
    } else if columns.last().required {
        required_of(columns.drop_last()).push(columns.last().name)
    } else {
        required_of(columns.drop_last())
    }
}

/// What the schema document of a template says of the members of a row.
pub open spec fn validation_of(template: TemplateView) -> Option<ObjectValidationView> {
    if template.has_validation {
        Some(
            ObjectValidationView {
                properties: properties_of(template.columns),
                required: required_of(template.columns),
            },
        )
    } else {
        None
    }
}

/// The schema document of a template: the document that the template came
/// from, with the members that stand for the columns of the template.
pub open spec fn schema_of(template: TemplateView) -> RootSchemaView {
    RootSchemaView {
        meta_schema: template.meta_schema,
        title: template.title,
        instance_type: template.instance_type,
        object: validation_of(template),
        rest: template.rest,
    }
}

/// The names of those of `columns` that say what they accept, in order:
/// the headers that the template stands for.
pub open spec fn usable_names(columns: Seq<ColumnView>) -> Seq<Seq<char>>
    decreases columns.len(),
{
    if columns.len() == 0 {
        Seq::empty()
    } else if columns.last().validation is Object {
        usable_names(columns.drop_last()).push(columns.last().name)
    } else {
        usable_names(columns.drop_last())
    }
}

/// The names of those of `columns` that must be there and are not among
/// `headers`, in order.
pub open spec fn missing_of(columns: Seq<ColumnView>, headers: Seq<Seq<char>>) -> Seq<Seq<char>>
    decreases columns.len(),
{
    if columns.len() == 0 {
        Seq::empty()
    } else if columns.last().required && !headers.contains(columns.last().name) {
        missing_of(columns.drop_last(), headers).push(columns.last().name)
    } else {
        missing_of(columns.drop_last(), headers)
    }
}

/// The message of a template that says nothing of the members of a row.
pub open spec fn msg_no_validation(template: Seq<char>) -> Seq<char> {
    "Row Template "@ + template + " does not have a useable schema"@
}

/// The message for a column that a template does not have.
pub open spec fn msg_no_column(column: Seq<char>, template: Seq<char>) -> Seq<char> {
    "No column named '"@ + column + "' in row template '"@ + template + "'"@
}

/// The message for a column whose schema says nothing.
pub open spec fn msg_bad_column(column: Seq<char>, template: Seq<char>) -> Seq<char> {
    "The column named '"@ + column + "' in row template '"@ + template
        + "' did not have a proper schema configured"@
}

/// The message for a cell whose column has a schema that says nothing.
pub open spec fn msg_no_cell_schema(column: Seq<char>, template: Seq<char>) -> Seq<char> {
    "Cell "@ + column + " Row Template "@ + template + " does not have a useable schema"@
}

/// The message for a column that a template has already.
pub open spec fn msg_duplicate_column(column: Seq<char>, template: Seq<char>) -> Seq<char> {
    "Duplicate headers named '"@ + column + "' in table '"@ + template + "'"@
}

/// The message for required columns that the headers lack.
pub open spec fn msg_missing_headers(missing: Seq<Seq<char>>) -> Seq<char> {
    "The following required headers were not found: ["@ + joined(missing) + "]"@
}

/// The message of a template without columns that is asked for its headers.
pub open spec fn msg_no_headers() -> Seq<char> {
    "The table template does not have any headers set"@
}

/// What a template accepts in the column `name`, or the failure of a
/// template that says nothing of members, has no such column, or has one
/// whose schema says nothing.
pub open spec fn cell_schema(template: TemplateView, name: Seq<char>) -> Result<
    SchemaObjectView,
    ErrorView,
> {
    if !template.has_validation {
        Err(plain_error(Kind::NotFound, msg_no_validation(template.name)))
    } else {
        match index_in(column_names(template.columns), name) {
            None => Err(plain_error(Kind::NotFound, msg_no_column(name, template.name))),
            Some(i) => match template.columns[i].validation {
                SchemaView::Object(o) => Ok(o),
                SchemaView::Bool(_) => Err(
                    plain_error(Kind::NotFound, msg_bad_column(name, template.name)),
                ),
            },
        }
    }
}

/// Describes how a row is expected to look: its columns by name, what each
/// accepts, and which of them must be there.
#[derive(Debug)]
pub struct RowTemplate {
    /// A pretty name for the template.
    name: String,
    /// What the template says of each column.
    columns: NameMap<Column>,
    /// Whether the template says anything of the members of a row.
    has_validation: bool,
    /// The dialect that the schema document of the template is written in.
    meta_schema: Option<String>,
    /// The title of the schema document.
    title: Option<String>,
    /// What the schema document says that a row is.
    instance_type: Option<SingleOrVec>,
    /// Whatever else the schema document of the template says, as JSON text.
    rest: Option<String>,
}

impl View for RowTemplate {
    type V = TemplateView;

    closed spec fn view(&self) -> TemplateView {
        TemplateView {
            name: self.name@,
            columns: column_views(self.columns.names(), self.columns.items()),
            has_validation: self.has_validation,
            meta_schema: text_view(self.meta_schema),
            title: text_view(self.title),
            instance_type: types_view(self.instance_type),
            rest: text_view(self.rest),
        }
    }
}

/// The names of the columns made of `names` and `items` are `names`.
proof fn lemma_column_names(names: Seq<Seq<char>>, items: Seq<Column>)
    ensures
        column_names(column_views(names, items)) == names,
{
    assert(column_names(column_views(names, items)) =~= names);
}

/// One column more.
proof fn lemma_column_views_push(
    names: Seq<Seq<char>>,
    items: Seq<Column>,
    name: Seq<char>,
    item: Column,
)
    requires
        names.len() == items.len(),
    ensures
        column_views(names.push(name), items.push(item)) == column_views(names, items).push(
            ColumnView { name, validation: item.validation@, required: item.required },
        ),
{
    assert(column_views(names.push(name), items.push(item)) =~= column_views(names, items).push(
        ColumnView { name, validation: item.validation@, required: item.required },
    ));
}

impl RowTemplate {
    /// The template that `schema` declares, under the name `name`. Without a
    /// document the template has no columns yet.
    pub fn new(name: String, schema: Option<RootSchema>) -> (template: RowTemplate)
        ensures
            template@ == template_of(
                name@,
                match schema {
                    Some(doc) => Some(doc@),
                    None => None,
                },
            ),
            template@.wf(),
    {
        let mut columns: NameMap<Column> = NameMap::new();
        let mut has_validation = true;
        match &schema {
            None => {},
            Some(doc) => match &doc.object {
                None => {
                    has_validation = false;
                },
                Some(validation) => {
                    let ghost properties = validation@.properties;
                    let ghost required = validation@.required;
                    let mut i: usize = 0;
                    while i < validation.properties.len()
                        invariant
                            i <= validation.properties.len(),
                            properties == validation@.properties,
                            required == validation@.required,
                            columns.names().len() == columns.items().len(),
                            column_views(columns.names(), columns.items()) == columns_of(
                                properties.take(i as int),
                                required,
                            ),
                        decreases validation.properties.len() - i,
                    {
                        let property = &validation.properties[i];
                        proof {
                            assert(properties.take(i + 1).drop_last() == properties.take(i as int));
                            assert(properties.take(i + 1).last() == property@);
                            lemma_column_names(columns.names(), columns.items());
                        }
                        let must = contains_text(&validation.required, property.name.as_str());
                        let ghost names = columns.names();
                        let ghost items = columns.items();
                        let column = Column {
                            validation: property.schema.duplicate(),
                            required: must,
                        };
                        let refused = columns.add(property.name.clone(), column);
                        proof {
                            if refused is None {
                                lemma_column_views_push(names, items, property.name@, column);
                            }
                        }
                        i = i + 1;
                    }
                    assert(properties.take(i as int) == properties);
                },
            },
        }
        proof {
            lemma_column_names(columns.names(), columns.items());
            assert(column_views(columns.names(), columns.items()).len() == 0 ==> column_views(
                columns.names(),
                columns.items(),
            ) =~= Seq::<ColumnView>::empty());
        }
        // Counting the columns recalls that no two of them share a name.
        let _ = columns.len();
        match schema {
            Some(doc) => RowTemplate {
                name,
                columns,
                has_validation,
                meta_schema: doc.meta_schema,
                title: doc.title,
                instance_type: doc.instance_type,
                rest: doc.rest,
            },
            None => RowTemplate {
                title: Some(name.clone()),
                name,
                columns,
                has_validation,
                meta_schema: Some("http://json-schema.org/draft/2019-09/schema#".to_owned()),
                instance_type: Some(SingleOrVec::Single(InstanceType::Object)),
                rest: None,
            },
        }
    }

    /// The schema document of a template that has the given name and no
    /// columns.
    pub fn blank_schema(name: String) -> (schema: RootSchema)
        ensures
            schema@ == document(
                name@,
                Some(
                    ObjectValidationView { properties: Seq::empty(), required: Seq::empty() },
                ),
                None,
            ),
    {
        let object = ObjectValidation::new();
        assert(object@.properties =~= Seq::empty());
        assert(object@.required =~= Seq::empty());
        RootSchema {
            meta_schema: Some("http://json-schema.org/draft/2019-09/schema#".to_owned()),
            title: Some(name),
            instance_type: Some(SingleOrVec::Single(InstanceType::Object)),
            object: Some(object),
            rest: None,
        }
    }

    /// The name of the template.
    pub fn name(&self) -> (name: String)
        ensures
            name@ == self@.name,
    {
        self.name.clone()
    }

    /// What the schema document of the template says of the members of a
    /// row, whether or not the template says anything of them.
    fn members(&self) -> (object: ObjectValidation)
        ensures
            object@ == (ObjectValidationView {
                properties: properties_of(self@.columns),
                required: required_of(self@.columns),
            }),
    {
        let ghost columns = self@.columns;
        let mut properties: Vec<Property> = Vec::new();
        let mut required: Vec<String> = Vec::new();
        let n = self.columns.len();
        let mut i: usize = 0;
        while i < n
            invariant
                i <= n,
                n == columns.len(),
                n == self.columns.names().len(),
                columns == self@.columns,
                properties@.len() == i,
                forall|j: int|
                    0 <= j < i ==> (#[trigger] properties@[j])@ == properties_of(columns)[j],
                views_of(required@) == required_of(columns.take(i as int)),
            decreases n - i,
        {
            let name = self.columns.name_at(i);
            let column = self.columns.item_at(i);
            proof {
                assert(columns.take(i + 1).drop_last() == columns.take(i as int));
                assert(columns.take(i + 1).last() == columns[i as int]);
            }
            properties.push(
                Property { name: name.clone(), schema: column.validation.duplicate() },
            );
            if column.required {
                let ghost before = required@;
                required.push(name.clone());
                assert(views_of(required@) =~= views_of(before).push(name@));
            }
            i = i + 1;
        }
        assert(columns.take(i as int) == columns);
        let object = ObjectValidation { properties, required };
        assert(object@.properties =~= properties_of(columns));
        object
    }

    /// What the template says of the members of a row.
    pub fn get_validation(&self) -> (object: Result<ObjectValidation, SubparError>)
        ensures
            match object {
                Ok(o) => Some(o@) == validation_of(self@),
                Err(e) => !self@.has_validation && e@ == plain_error(
                    Kind::NotFound,
                    msg_no_validation(self@.name),
                ),
            },
    {
        if self.has_validation {
            Ok(self.members())
        } else {
            Err(self.no_validation())
        }
    }

    /// The failure of a template that says nothing of the members of a row.
    fn no_validation(&self) -> (e: SubparError)
        ensures
            e@ == plain_error(Kind::NotFound, msg_no_validation(self@.name)),
    {
        SubparError::new(
            Kind::NotFound,
            concat3("Row Template ", self.name.as_str(), " does not have a useable schema"),
        )
    }

    /// The schema document of the template.
    pub fn schema(&self) -> (schema: RootSchema)
        ensures
            schema@ == schema_of(self@),
    {
        RootSchema {
            meta_schema: copy_text(&self.meta_schema),
            title: copy_text(&self.title),
            instance_type: match &self.instance_type {
                Some(t) => Some(t.duplicate()),
                None => None,
            },
            object: if self.has_validation {
                Some(self.members())
            } else {
                None
            },
            rest: copy_text(&self.rest),
        }
    }

    /// The template that the document `schema` declares, under the title of
    /// the document.
    pub fn from_schema(schema: RootSchema) -> (template: RowTemplate)
        ensures
            template@ == template_of(title_of(schema@), Some(schema@)),
            template@.wf(),
    {
        let name = match &schema.title {
            Some(title) => title.clone(),
            None => "Not Named".to_owned(),
        };
        RowTemplate::new(name, Some(schema))
    }

    /// What the template accepts in the column `name`.
    pub fn get_cell_schema(&self, name: &str) -> (schema: Result<&SchemaObject, SubparError>)
        ensures
            match cell_schema(self@, name@) {
                Ok(expected) => schema matches Ok(s) && s@ == expected,
                Err(failure) => schema matches Err(e) && e@ == failure,
            },
    {
        proof {
            lemma_column_names(self.columns.names(), self.columns.items());
            lemma_index_absent(self.columns.names(), name@);
            self.columns.lemma_same_len();
        }
        if !self.has_validation {
            return Err(self.no_validation());
        }
        match self.columns.position(name) {
            Some(i) => match &self.columns.item_at(i).validation {
                Schema::Object(object) => Ok(object),
                Schema::Bool(_) => Err(
                    SubparError::new(
                        Kind::NotFound,
                        concat5(
                            "The column named '",
                            name,
                            "' in row template '",
                            self.name.as_str(),
                            "' did not have a proper schema configured",
                        ),
                    ),
                ),
            },
            None => Err(
                SubparError::new(
                    Kind::NotFound,
                    concat5(
                        "No column named '",
                        name,
                        "' in row template '",
                        self.name.as_str(),
                        "'",
                    ),
                ),
            ),
        }
    }

    /// The names of the columns that say what they accept, in the order in
    /// which they were declared. A template without such columns has no
    /// headers to give.
    pub fn get_headers(&self) -> (headers: Result<Vec<String>, SubparError>)
        ensures
            match headers {
                Ok(names) => views_of(names@).len() > 0 && views_of(names@) == usable_names(
                    self@.columns,
                ),
                Err(e) => usable_names(self@.columns).len() == 0 && e@ == plain_error(
                    Kind::BadValue,
                    msg_no_headers(),
                ),
            },
    {
        let ghost columns = self@.columns;
        let n = self.columns.len();
        let mut names: Vec<String> = Vec::new();
        assert(views_of(names@) =~= Seq::<Seq<char>>::empty());
        let mut i: usize = 0;
        while i < n
            invariant
                i <= n,
                n == columns.len(),
                n == self.columns.names().len(),
                columns == self@.columns,
                views_of(names@) == usable_names(columns.take(i as int)),
            decreases n - i,
        {
            proof {
                assert(columns.take(i + 1).drop_last() == columns.take(i as int));
                assert(columns.take(i + 1).last() == columns[i as int]);
            }
            match &self.columns.item_at(i).validation {
                Schema::Object(_) => {
                    let ghost before = names@;
                    let name = self.columns.name_at(i).clone();
                    names.push(name);
                    assert(views_of(names@) =~= views_of(before).push(name@));
                },
                Schema::Bool(_) => {},
            }
            i = i + 1;
        }
        assert(columns.take(i as int) == columns);
        if names.len() == 0 {
            Err(SubparError::of(Kind::BadValue, "The table template does not have any headers set"))
        } else {
            Ok(names)
        }
    }

    /// Checks that every column that must be there is among `headers`. The
    /// failure names all that are not.
    pub fn validate_headers(&self, headers: &Vec<String>) -> (checked: Result<(), SubparError>)
        ensures
            match checked {
                Ok(_) => self@.has_validation && missing_of(self@.columns, views_of(headers@)).len()
                    == 0,
                Err(e) => if !self@.has_validation {
                    e@ == plain_error(Kind::NotFound, msg_no_validation(self@.name))
                } else {
                    missing_of(self@.columns, views_of(headers@)).len() > 0 && e@ == plain_error(
                        Kind::BadValue,
                        msg_missing_headers(missing_of(self@.columns, views_of(headers@))),
                    )
                },
            },
    {
        if !self.has_validation {
            return Err(self.no_validation());
        }
        let ghost columns = self@.columns;
        let ghost seen = views_of(headers@);
        let mut missing: Vec<String> = Vec::new();
        let n = self.columns.len();
        let mut i: usize = 0;
        while i < n
            invariant
                i <= n,
                n == columns.len(),
                n == self.columns.names().len(),
                columns == self@.columns,
                seen == views_of(headers@),
                views_of(missing@) == missing_of(columns.take(i as int), seen),
            decreases n - i,
        {
            let name = self.columns.name_at(i);
            let column = self.columns.item_at(i);
            proof {
                assert(columns.take(i + 1).drop_last() == columns.take(i as int));
                assert(columns.take(i + 1).last() == columns[i as int]);
            }
            if column.required && !contains_text(headers, name.as_str()) {
                let ghost before = missing@;
                missing.push(name.clone());
                assert(views_of(missing@) =~= views_of(before).push(name@));
            }
            i = i + 1;
        }
        assert(columns.take(i as int) == columns);
        if missing.len() > 0 {
            let names = join(&missing);
            Err(
                SubparError::new(
                    Kind::BadValue,
                    concat3(
                        "The following required headers were not found: [",
                        names.as_str(),
                        "]",
                    ),
                ),
            )
        } else {
            Ok(())
        }
    }

    /// Declares one column more. Without a schema the column accepts text.
    /// A name that the template has already is refused, and the template
    /// stays as it was.
    pub fn add_column(
        &mut self,
        name: &str,
        col_schema: Option<SchemaObject>,
        required: bool,
    ) -> (added: Result<(), SubparError>)
        ensures
            match added {
                Ok(_) => index_in(column_names(old(self)@.columns), name@) is None && final(self)@
                    == (TemplateView {
                    columns: old(self)@.columns.push(
                        ColumnView {
                            name: name@,
                            validation: SchemaView::Object(
                                match col_schema {
                                    Some(s) => s@,
                                    None => SchemaObject::text_column(),
                                },
                            ),
                            required,
                        },
                    ),
                    has_validation: true,
                    ..old(self)@
                }),
                Err(e) => index_in(column_names(old(self)@.columns), name@) is Some && final(self)@
                    == old(self)@ && e@ == plain_error(
                    Kind::DuplicateKey,
                    msg_duplicate_column(name@, old(self)@.name),
                ),
            },
            old(self)@.wf() ==> final(self)@.wf(),
            distinct(column_names(final(self)@.columns)),
    {
        proof {
            lemma_column_names(self.columns.names(), self.columns.items());
        }
        let validation = match col_schema {
            Some(s) => s,
            None => SchemaObject {
                title: None,
                instance_type: Some(SingleOrVec::Single(InstanceType::String)),
                rest: None,
            },
        };
        let ghost names = self.columns.names();
        let ghost items = self.columns.items();
        proof {
            self.columns.lemma_same_len();
        }
        let column = Column { validation: Schema::Object(validation), required };
        let refused = self.columns.add(name.to_owned(), column);
        proof {
            lemma_column_names(self.columns.names(), self.columns.items());
        }
        match refused {
            None => {
                proof {
                    lemma_column_views_push(names, items, name@, column);
                }
                self.has_validation = true;
                Ok(())
            },
            Some(_) => Err(
                SubparError::new(
                    Kind::DuplicateKey,
                    concat5(
                        "Duplicate headers named '",
                        name,
                        "' in table '",
                        self.name.as_str(),
                        "'",
                    ),
                ),
            ),
        }
    }

    /// The canonical value of a text that comes without any hint of a type:
    /// the text itself.
    pub fn parse_raw(val: &str) -> (value: Result<CanonicalValue, SubparError>)
        ensures
            value matches Ok(v) && v@ == ValueView::String(val@),
    {
        Ok(CanonicalValue::String(val.to_owned()))
    }

    /// How many columns the template declares. No two of them have one name.
    pub fn column_count(&self) -> (n: usize)
        ensures
            n == self@.columns.len(),
            distinct(column_names(self@.columns)),
    {
        proof {
            lemma_column_names(self.columns.names(), self.columns.items());
        }
        self.columns.len()
    }
}

/// What each of `values` holds, in order.
pub open spec fn value_views(values: Seq<CanonicalValue>) -> Seq<ValueView> {
    values.map_values(|v: CanonicalValue| v@)
}

/// What each of `cells` holds, in order.
pub open spec fn cell_views(cells: Seq<Cell>) -> Seq<NamedCellView> {
    cells.map_values(|c: Cell| c@)
}

/// A row, as plain values.
pub struct RowView {
    /// The schema document of the template that the row was made for.
    pub schema: RootSchemaView,
    /// The names of the columns that have a value, in the order in which
    /// the values came.
    pub names: Seq<Seq<char>>,
    /// The values, each at the place of its name.
    pub values: Seq<ValueView>,
}

impl RowView {
    /// The value under `name`, if the row has one.
    pub open spec fn get(self, name: Seq<char>) -> Option<ValueView> {
        match index_in(self.names, name) {
            Some(i) => Some(self.values[i]),
            None => None,
        }
    }

    /// A row without values.
    pub open spec fn empty(schema: RootSchemaView) -> RowView {
        RowView { schema, names: Seq::empty(), values: Seq::empty() }
    }
}

/// The message for a second value under one name.
pub open spec fn msg_duplicate_cell(name: Seq<char>) -> Seq<char> {
    "Attempted to add a second column named '"@ + name + "'"@
}

/// The message for a name under which a row has no value.
pub open spec fn msg_no_cell(name: Seq<char>) -> Seq<char> {
    "Could not find cell named '"@ + name + "' in row"@
}

/// The message for a column that must be there and has no cell.
pub open spec fn msg_required(template: Seq<char>, column: Seq<char>) -> Seq<char> {
    "Row Template '"@ + template + "' requires a column named '"@ + column
        + "' but did not receive one"@
}

/// The message for a cell that its column did not take; `held` is what the
/// cell holds and `inner` says why it was not taken.
pub open spec fn msg_cell_failed(
    column: Seq<char>,
    held: Seq<char>,
    template: Seq<char>,
    inner: Seq<char>,
) -> Seq<char> {
    "Could not convert cell '"@ + column + "' holding '"@ + held + "' to a value for row '"@
        + template + "': "@ + inner
}

/// The message of a row that could not be made.
pub open spec fn msg_row_failed(template: Seq<char>) -> Seq<char> {
    "Unable to convert cells to a row of '"@ + template + "'"@
}

/// What one column does to a row that is being made.
pub enum Step {
    /// The column has no cell and needs none.
    Skip,
    /// The cell of the column became this value.
    Put(ValueView),
    /// The column failed.
    Fail(CauseView),
}

/// The cell under `name`, if there is one.
pub open spec fn found_cell(names: Seq<Seq<char>>, cells: Seq<NamedCellView>, name: Seq<char>) -> Option<
    NamedCellView,
> {
    match index_in(names, name) {
        Some(i) => Some(cells[i]),
        None => None,
    }
}

/// What `column` does with the cell that was found for it.
pub open spec fn column_step(
    template: Seq<char>,
    column: ColumnView,
    cell: Option<NamedCellView>,
) -> Step {
    match cell {
        None => if column.required {
            Step::Fail(
                CauseView {
                    kind: Kind::NotFound,
                    message: msg_required(template, column.name),
                    column: Some(column.name),
                },
            )
        } else {
            Step::Skip
        },
        Some(c) => match column.validation {
            SchemaView::Bool(_) => Step::Fail(
                CauseView {
                    kind: Kind::NotFound,
                    message: msg_no_cell_schema(column.name, template),
                    column: Some(column.name),
                },
            ),
            SchemaView::Object(schema) => match cell_value(c.name, c.value, schema.instance_type) {
                Ok(v) => Step::Put(v),
                Err(e) => Step::Fail(
                    CauseView {
                        kind: e.kind,
                        message: msg_cell_failed(
                            column.name,
                            c.value.shown(),
                            template,
                            e.message,
                        ),
                        column: Some(column.name),
                    },
                ),
            },
        },
    }
}

/// A row that is being made: the values so far, and the failures so far.
pub struct Assembly {
    pub names: Seq<Seq<char>>,
    pub values: Seq<ValueView>,
    pub failures: Seq<CauseView>,
}

/// The failure of a second value under the name of `column`.
pub open spec fn duplicate_cause(column: Seq<char>) -> CauseView {
    CauseView {
        kind: Kind::DuplicateKey,
        message: msg_duplicate_cell(column),
        column: Some(column),
    }
}

/// The row after `step` of the column `column`.
pub open spec fn after_step(so_far: Assembly, column: Seq<char>, step: Step) -> Assembly {
    match step {
        Step::Skip => so_far,
        Step::Fail(cause) => Assembly { failures: so_far.failures.push(cause), ..so_far },
        Step::Put(v) => if index_in(so_far.names, column) is None {
            Assembly {
                names: so_far.names.push(column),
                values: so_far.values.push(v),
                ..so_far
            }
        } else {
            Assembly { failures: so_far.failures.push(duplicate_cause(column)), ..so_far }
        },
    }
}

/// The row that `columns` make of the cells, column by column in the order
/// of the columns, with every failure met on the way. Cells that no column
/// asks for are passed over.
pub open spec fn assemble(
    template: Seq<char>,
    columns: Seq<ColumnView>,
    cell_names: Seq<Seq<char>>,
    cells: Seq<NamedCellView>,
) -> Assembly
    decreases columns.len(),
{
    if columns.len() == 0 {
        Assembly { names: Seq::empty(), values: Seq::empty(), failures: Seq::empty() }
    } else {
        let column = columns.last();
        after_step(
            assemble(template, columns.drop_last(), cell_names, cells),
            column.name,
            column_step(template, column, found_cell(cell_names, cells, column.name)),
        )
    }
}

/// The row that `template` makes of the cells, or the one failure that
/// stands for all that its columns met.
pub open spec fn row_of(
    template: TemplateView,
    cell_names: Seq<Seq<char>>,
    cells: Seq<NamedCellView>,
) -> Result<
    RowView,
    ErrorView,
> {
    if !template.has_validation {
        Err(plain_error(Kind::NotFound, msg_no_validation(template.name)))
    } else {
        let made = assemble(template.name, template.columns, cell_names, cells);
        if made.failures.len() == 0 {
            Ok(RowView { schema: schema_of(template), names: made.names, values: made.values })
        } else {
            Err(
                ErrorView {
                    kind: Kind::ErrorList,
                    message: msg_row_failed(template.name),
                    column: None,
                    line: None,
                    causes: made.failures,
                },
            )
        }
    }
}

/// What a row or its failure holds, as plain values.
pub open spec fn row_outcome_view(outcome: Result<Row, SubparError>) -> Result<RowView, ErrorView> {
    match outcome {
        Ok(row) => Ok(row@),
        Err(e) => Err(e@),
    }
}

/// An intermediate record: the canonical values of one line, each under the
/// name of its column.
#[derive(Debug)]
pub struct Row {
    /// The schema document of the template that the row was made for: each
    /// row has a copy of its own, so that it can outlive the template.
    schema: RootSchema,
    /// The values by column.
    cells: NameMap<CanonicalValue>,
}

impl View for Row {
    type V = RowView;

    closed spec fn view(&self) -> RowView {
        RowView {
            schema: self.schema@,
            names: self.cells.names(),
            values: value_views(self.cells.items()),
        }
    }
}

impl Row {
    /// A row without values, for `template` or for no template at all; then
    /// its schema document is the blank one.
    pub fn new(template: Option<&RowTemplate>) -> (row: Row)
        ensures
            row@ == RowView::empty(
                match template {
                    Some(t) => schema_of(t@),
                    None => schema_of(blank_template("No Name"@)),
                },
            ),
    {
        let schema = match template {
            Some(t) => t.schema(),
            None => RowTemplate::blank_schema("No Name".to_owned()),
        };
        let row = Row { schema, cells: NameMap::new() };
        assert(row@.values =~= Seq::<ValueView>::empty());
        assert(properties_of(Seq::<ColumnView>::empty()) =~= Seq::empty());
        row
    }

    /// Puts `cell` under `name`. A second value under one name is refused,
    /// and the row keeps the first.
    pub fn add_cell(&mut self, name: &str, cell: CanonicalValue) -> (added: Result<(), SubparError>)
        ensures
            match added {
                Ok(_) => index_in(old(self)@.names, name@) is None && final(self)@ == (RowView {
                    names: old(self)@.names.push(name@),
                    values: old(self)@.values.push(cell@),
                    ..old(self)@
                }),
                Err(e) => index_in(old(self)@.names, name@) is Some && final(self)@ == old(self)@
                    && e@ == plain_error(Kind::DuplicateKey, msg_duplicate_cell(name@)),
            },
            distinct(final(self)@.names),
            final(self)@.names.len() == final(self)@.values.len(),
    {
        let ghost items = self.cells.items();
        let refused = self.cells.add(name.to_owned(), cell);
        proof {
            self.cells.lemma_same_len();
        }
        match refused {
            None => {
                assert(value_views(items.push(cell)) =~= value_views(items).push(cell@));
                Ok(())
            },
            Some(_) => Err(
                SubparError::new(
                    Kind::DuplicateKey,
                    concat3("Attempted to add a second column named '", name, "'"),
                ),
            ),
        }
    }

    /// The value under `cell_name`.
    pub fn get_cell(&self, cell_name: &str) -> (cell: Result<CanonicalValue, SubparError>)
        ensures
            match cell {
                Ok(v) => self@.get(cell_name@) == Some(v@),
                Err(e) => self@.get(cell_name@) is None && e@ == plain_error(
                    Kind::NotFound,
                    msg_no_cell(cell_name@),
                ),
            },
    {
        proof {
            lemma_index_absent(self.cells.names(), cell_name@);
            self.cells.lemma_same_len();
        }
        match self.cells.get(cell_name) {
            Some(v) => Ok(v.duplicate()),
            None => Err(
                SubparError::new(
                    Kind::NotFound,
                    concat3("Could not find cell named '", cell_name, "' in row"),
                ),
            ),
        }
    }

    /// How many values the row has. No two of them stand under one name.
    pub fn len(&self) -> (n: usize)
        ensures
            n == self@.names.len(),
            n == self@.values.len(),
            distinct(self@.names),
    {
        self.cells.len()
    }

    /// The name of the column at place `i`.
    pub fn name_at(&self, i: usize) -> (name: String)
        requires
            i < self@.names.len(),
        ensures
            name@ == self@.names[i as int],
    {
        self.cells.name_at(i).clone()
    }

    /// The value at place `i`.
    pub fn value_at(&self, i: usize) -> (value: CanonicalValue)
        requires
            i < self@.names.len(),
        ensures
            value@ == self@.values[i as int],
    {
        proof {
            self.cells.lemma_same_len();
        }
        self.cells.item_at(i).duplicate()
    }

    /// The schema document of the template that the row was made for.
    pub fn schema(&self) -> (schema: &RootSchema)
        ensures
            schema@ == self@.schema,
    {
        &self.schema
    }
}

impl RowTemplate {
    /// What the column at place `i` does with the cells.
    fn step(&self, i: usize, cells: &NameMap<Cell>) -> (step: Result<Option<CanonicalValue>, Cause>)
        requires
            i < self@.columns.len(),
        ensures
            match column_step(
                self@.name,
                self@.columns[i as int],
                found_cell(cells.names(), cell_views(cells.items()), self@.columns[i as int].name),
            ) {
                Step::Skip => step == Ok::<Option<CanonicalValue>, Cause>(None),
                Step::Put(v) => step matches Ok(Some(value)) && value@ == v,
                Step::Fail(cause) => step matches Err(c) && c@ == cause,
            },
    {
        proof {
            cells.lemma_same_len();
            self.columns.lemma_same_len();
            lemma_index_absent(cells.names(), self@.columns[i as int].name);
        }
        let name = self.columns.name_at(i);
        let column = self.columns.item_at(i);
        match cells.get(name.as_str()) {
            None => {
                if column.required {
                    Err(
                        Cause {
                            kind: Kind::NotFound,
                            message: concat5(
                                "Row Template '",
                                self.name.as_str(),
                                "' requires a column named '",
                                name.as_str(),
                                "' but did not receive one",
                            ),
                            column: Some(name.clone()),
                        },
                    )
                } else {
                    Ok(None)
                }
            },
            Some(cell) => match &column.validation {
                Schema::Bool(_) => {
                    let mut message = concat3("Cell ", name.as_str(), " Row Template ");
                    message.append(self.name.as_str());
                    message.append(" does not have a useable schema");
                    Err(Cause { kind: Kind::NotFound, message, column: Some(name.clone()) })
                },
                Schema::Object(schema) => match cell.to_value(schema) {
                    Ok(value) => Ok(Some(value)),
                    Err(e) => {
                        let held = cell.value().shown();
                        let mut message = concat5(
                            "Could not convert cell '",
                            name.as_str(),
                            "' holding '",
                            held.as_str(),
                            "' to a value for row '",
                        );
                        message.append(self.name.as_str());
                        message.append("': ");
                        message.append(e.message.as_str());
                        Err(Cause { kind: e.kind, message, column: Some(name.clone()) })
                    },
                },
            },
        }
    }

    /// Makes a row of `cells`: each column of the template, in the order of
    /// the columns, converts the cell of its name. A column that must be
    /// there and has no cell fails, and so does a cell that its column does
    /// not take; every such failure is kept, and one failure that stands for
    /// all of them comes back in place of the row.
    pub fn to_row(&self, cells: &NameMap<Cell>) -> (row: Result<Row, SubparError>)
        ensures
            row_outcome_view(row) == row_of(self@, cells.names(), cell_views(cells.items())),
    {
        if !self.has_validation {
            return Err(self.no_validation());
        }
        let ghost template = self@;
        let ghost cell_names = cells.names();
        let ghost cell_items = cell_views(cells.items());
        let mut row = Row::new(Some(self));
        let mut failures: Vec<Cause> = Vec::new();
        let n = self.columns.len();
        let mut i: usize = 0;
        assert(cause_views(failures@) =~= Seq::<CauseView>::empty());
        while i < n
            invariant
                i <= n,
                n == template.columns.len(),
                template == self@,
                cell_names == cells.names(),
                cell_items == cell_views(cells.items()),
                row@.schema == schema_of(template),
                (Assembly {
                    names: row@.names,
                    values: row@.values,
                    failures: cause_views(failures@),
                }) == assemble(
                    template.name,
                    template.columns.take(i as int),
                    cell_names,
                    cell_items,
                ),
            decreases n - i,
        {
            proof {
                assert(template.columns.take(i + 1).drop_last() == template.columns.take(i as int));
                assert(template.columns.take(i + 1).last() == template.columns[i as int]);
                self.columns.lemma_same_len();
            }
            let ghost before = failures@;
            match self.step(i, cells) {
                Ok(None) => {},
                Ok(Some(value)) => {
                    let name = self.columns.name_at(i);
                    match row.add_cell(name.as_str(), value) {
                        Ok(_) => {},
                        Err(e) => {
                            let cause = e.in_column(name.as_str()).into_cause();
                            failures.push(cause);
                            assert(cause_views(failures@) =~= cause_views(before).push(cause@));
                        },
                    }
                },
                Err(cause) => {
                    failures.push(cause);
                    assert(cause_views(failures@) =~= cause_views(before).push(cause@));
                },
            }
            i = i + 1;
        }
        assert(template.columns.take(i as int) == template.columns);
        if failures.len() == 0 {
            Ok(row)
        } else {
            let message = concat3("Unable to convert cells to a row of '", self.name.as_str(), "'");
            Err(SubparError::group(message.as_str(), failures))
        }
    }
}

/// Whoever stands among the names that must be there is a column that must
/// be there, and the other way round.
proof fn lemma_required_of(columns: Seq<ColumnView>, name: Seq<char>)
    ensures
        required_of(columns).contains(name) <==> exists|j: int|
            0 <= j < columns.len() && (#[trigger] columns[j]).required && columns[j].name == name,
    decreases columns.len(),
{
    if columns.len() > 0 {
        let before = columns.drop_last();
        let last = columns.last();
        lemma_required_of(before, name);
        if required_of(columns).contains(name) {
            if last.required && last.name == name {
                assert(columns[columns.len() - 1].required);
            } else {
                if last.required {
                    let k = choose|k: int|
                        0 <= k < required_of(columns).len() && required_of(columns)[k] == name;
                    assert(k < required_of(before).len());
                    assert(required_of(before)[k] == name);
                }
                assert(required_of(before).contains(name));
                let j = choose|j: int|
                    0 <= j < before.len() && (#[trigger] before[j]).required && before[j].name
                        == name;
                assert(columns[j] == before[j]);
            }
        }
        if exists|j: int|
            0 <= j < columns.len() && (#[trigger] columns[j]).required && columns[j].name == name {
            let j = choose|j: int|
                0 <= j < columns.len() && (#[trigger] columns[j]).required && columns[j].name
                    == name;
            if j == columns.len() - 1 {
                assert(required_of(columns).last() == name);
            } else {
                assert(before[j] == columns[j]);
                assert(required_of(before).contains(name));
                let k = choose|k: int|
                    0 <= k < required_of(before).len() && required_of(before)[k] == name;
                assert(required_of(columns)[k] == name);
            }
        }
    }
}

/// The columns that the members for the first `k` of `columns` declare are
/// those `k` columns.
proof fn lemma_columns_round_trip(columns: Seq<ColumnView>, k: int)
    requires
        distinct(column_names(columns)),
        0 <= k <= columns.len(),
    ensures
        columns_of(properties_of(columns).take(k), required_of(columns)) == columns.take(k),
    decreases k,
{
    let properties = properties_of(columns);
    let required = required_of(columns);
    if k == 0 {
        assert(columns.take(0) =~= Seq::<ColumnView>::empty());
    } else {
        lemma_columns_round_trip(columns, k - 1);
        assert(properties.take(k).drop_last() == properties.take(k - 1));
        let p = properties.take(k).last();
        let c = columns[k - 1];
        assert(p == PropertyView { name: c.name, schema: c.validation });
        let before = columns.take(k - 1);
        assert forall|j: int| 0 <= j < column_names(before).len() implies column_names(before)[j]
            != c.name by {
            assert(column_names(columns)[j] == before[j].name);
            assert(column_names(columns)[k - 1] == c.name);
        }
        lemma_index_absent(column_names(before), c.name);
        lemma_required_of(columns, c.name);
        if required.contains(c.name) {
            let j = choose|j: int|
                0 <= j < columns.len() && (#[trigger] columns[j]).required && columns[j].name
                    == c.name;
            assert(column_names(columns)[j] == c.name);
            assert(column_names(columns)[k - 1] == c.name);
            assert(j == k - 1);
        }
        assert(columns.take(k) =~= before.push(c));
    }
}

/// A template comes back unchanged from its own schema document: the same
/// columns in the same order, the same columns that must be there, and all
/// that the document says beside them. Where the document is titled as the
/// template is named, the name comes back from the title too.
pub proof fn schema_round_trip(template: TemplateView)
    requires
        template.wf(),
    ensures
        template_of(template.name, Some(schema_of(template))) == template,
        template.title == Some(template.name) ==> template_of(
            title_of(schema_of(template)),
            Some(schema_of(template)),
        ) == template,
{
    lemma_columns_round_trip(template.columns, template.columns.len() as int);
    assert(properties_of(template.columns).take(template.columns.len() as int) == properties_of(
        template.columns,
    ));
    assert(template.columns.take(template.columns.len() as int) == template.columns);
    if !template.has_validation {
        assert(template.columns =~= Seq::<ColumnView>::empty());
    }
}

/// No row holds two values under one name, whatever the columns and the
/// cells: a column whose name has a value already fails in place of
/// writing a second one.
pub proof fn rows_hold_each_name_once(
    template: Seq<char>,
    columns: Seq<ColumnView>,
    cell_names: Seq<Seq<char>>,
    cells: Seq<NamedCellView>,
)
    ensures
        distinct(assemble(template, columns, cell_names, cells).names),
        assemble(template, columns, cell_names, cells).names.len() == assemble(
            template,
            columns,
            cell_names,
            cells,
        ).values.len(),
    decreases columns.len(),
{
    if columns.len() > 0 {
        rows_hold_each_name_once(template, columns.drop_last(), cell_names, cells);
        let before = assemble(template, columns.drop_last(), cell_names, cells);
        if index_in(before.names, columns.last().name) is None {
            lemma_distinct_push(before.names, columns.last().name);
        }
    }
}

/// A cell that no column asks for makes no difference: the row, and every
/// failure, is what it is without that cell.
pub proof fn unknown_cells_are_passed_over(
    template: TemplateView,
    cell_names: Seq<Seq<char>>,
    cells: Seq<NamedCellView>,
    extra: NamedCellView,
    under: Seq<char>,
)
    requires
        cell_names.len() == cells.len(),
        index_in(column_names(template.columns), under) is None,
    ensures
        row_of(template, cell_names.push(under), cells.push(extra)) == row_of(
            template,
            cell_names,
            cells,
        ),
{
    lemma_unknown_cell(template.name, template.columns, cell_names, cells, extra, under);
}

/// What `unknown_cells_are_passed_over` says, for any columns.
proof fn lemma_unknown_cell(
    template: Seq<char>,
    columns: Seq<ColumnView>,
    cell_names: Seq<Seq<char>>,
    cells: Seq<NamedCellView>,
    extra: NamedCellView,
    under: Seq<char>,
)
    requires
        cell_names.len() == cells.len(),
        index_in(column_names(columns), under) is None,
    ensures
        assemble(template, columns, cell_names.push(under), cells.push(extra)) == assemble(
            template,
            columns,
            cell_names,
            cells,
        ),
    decreases columns.len(),
{
    if columns.len() > 0 {
        let column = columns.last();
        lemma_index_absent(column_names(columns), under);
        assert(column_names(columns)[columns.len() - 1] == column.name);
        assert(column.name != under);
        assert forall|j: int| 0 <= j < columns.drop_last().len() implies column_names(
            columns.drop_last(),
        )[j] != under by {
            assert(column_names(columns)[j] == columns.drop_last()[j].name);
        }
        lemma_index_absent(column_names(columns.drop_last()), under);
        lemma_unknown_cell(template, columns.drop_last(), cell_names, cells, extra, under);
        lemma_index_push(cell_names, under, column.name);
        lemma_index_absent(cell_names, column.name);
        match index_in(cell_names, column.name) {
            Some(k) => {
                assert(cells.push(extra)[k] == cells[k]);
            },
            None => {},
        }
    }
}

/// Failures are never taken back: what the first columns met is among what
/// all of them met.
proof fn lemma_failures_stay(
    template: Seq<char>,
    columns: Seq<ColumnView>,
    cell_names: Seq<Seq<char>>,
    cells: Seq<NamedCellView>,
    cause: CauseView,
)
    requires
        columns.len() > 0,
        assemble(template, columns.drop_last(), cell_names, cells).failures.contains(cause),
    ensures
        assemble(template, columns, cell_names, cells).failures.contains(cause),
{
    let before = assemble(template, columns.drop_last(), cell_names, cells).failures;
    let after = assemble(template, columns, cell_names, cells).failures;
    let k = choose|k: int| 0 <= k < before.len() && before[k] == cause;
    assert(after[k] == cause);
}

/// Every column that must be there and has no cell is named by a failure of
/// its own: a row that lacks several such columns fails once, with one
/// cause for each of them.
pub proof fn missing_columns_are_all_reported(
    template: TemplateView,
    cell_names: Seq<Seq<char>>,
    cells: Seq<NamedCellView>,
    i: int,
)
    requires
        template.has_validation,
        0 <= i < template.columns.len(),
        template.columns[i].required,
        index_in(cell_names, template.columns[i].name) is None,
    ensures
        row_of(template, cell_names, cells) matches Err(e) && e.kind == Kind::ErrorList
            && e.causes.contains(
            CauseView {
                kind: Kind::NotFound,
                message: msg_required(template.name, template.columns[i].name),
                column: Some(template.columns[i].name),
            },
        ),
{
    lemma_missing_reported(template.name, template.columns, cell_names, cells, i);
}

/// What `missing_columns_are_all_reported` says, for any columns.
proof fn lemma_missing_reported(
    template: Seq<char>,
    columns: Seq<ColumnView>,
    cell_names: Seq<Seq<char>>,
    cells: Seq<NamedCellView>,
    i: int,
)
    requires
        0 <= i < columns.len(),
        columns[i].required,
        index_in(cell_names, columns[i].name) is None,
    ensures
        assemble(template, columns, cell_names, cells).failures.contains(
            CauseView {
                kind: Kind::NotFound,
                message: msg_required(template, columns[i].name),
                column: Some(columns[i].name),
            },
        ),
    decreases columns.len(),
{
    let cause = CauseView {
        kind: Kind::NotFound,
        message: msg_required(template, columns[i].name),
        column: Some(columns[i].name),
    };
    if i == columns.len() - 1 {
        let after = assemble(template, columns, cell_names, cells).failures;
        assert(after.last() == cause);
    } else {
        assert(columns.drop_last()[i] == columns[i]);
        lemma_missing_reported(template, columns.drop_last(), cell_names, cells, i);
        lemma_failures_stay(template, columns, cell_names, cells, cause);
    }
}

/// The column that a header without any declaration stands for: text that
/// need not be there.
pub open spec fn header_column(header: Seq<char>) -> ColumnView {
    ColumnView {
        name: header,
        validation: SchemaView::Object(SchemaObject::text_column()),
        required: false,
    }
}

/// The columns that `headers` stand for, in order; of two headers of one
/// name the first counts.
pub open spec fn header_columns(headers: Seq<Seq<char>>) -> Seq<ColumnView>
    decreases headers.len(),
{
    if headers.len() == 0 {
        Seq::empty()
    } else {
        let before = header_columns(headers.drop_last());
        if index_in(column_names(before), headers.last()) is None {
            before.push(header_column(headers.last()))
        } else {
            before
        }
    }
}

/// One failure for each of `headers` that repeats an earlier one, in order.
pub open spec fn repeated_headers(template: Seq<char>, headers: Seq<Seq<char>>) -> Seq<CauseView>
    decreases headers.len(),
{
    if headers.len() == 0 {
        Seq::empty()
    } else {
        let before = repeated_headers(template, headers.drop_last());
        if index_in(column_names(header_columns(headers.drop_last())), headers.last()) is None {
            before
        } else {
            before.push(
                CauseView {
                    kind: Kind::DuplicateKey,
                    message: msg_duplicate_column(headers.last(), template),
                    column: Some(headers.last()),
                },
            )
        }
    }
}

/// Headers of which none repeats another stand for one column each, in
/// their order, and none of them is refused.
pub proof fn distinct_headers_make_their_columns(name: Seq<char>, headers: Seq<Seq<char>>)
    requires
        distinct(headers),
    ensures
        header_columns(headers) == headers.map_values(|h: Seq<char>| header_column(h)),
        column_names(header_columns(headers)) == headers,
        usable_names(header_columns(headers)) == headers,
        repeated_headers(name, headers).len() == 0,
    decreases headers.len(),
{
    let expected = headers.map_values(|h: Seq<char>| header_column(h));
    if headers.len() == 0 {
        assert(header_columns(headers) =~= expected);
        assert(column_names(header_columns(headers)) =~= headers);
        assert(usable_names(header_columns(headers)) =~= headers);
    } else {
        let before = headers.drop_last();
        distinct_headers_make_their_columns(name, before);
        assert forall|j: int| 0 <= j < before.len() implies before[j] != headers.last() by {
            assert(before[j] == headers[j]);
        }
        lemma_index_absent(before, headers.last());
        assert(header_columns(headers) =~= expected);
        assert(column_names(header_columns(headers)) =~= headers);
        assert(header_columns(headers).drop_last() =~= header_columns(before));
        assert(usable_names(header_columns(headers)) =~= headers);
    }
}

/// The message of headers that no template can be made of.
pub open spec fn msg_bad_headers(template: Seq<char>) -> Seq<char> {
    "Could not build the row template '"@ + template + "' from the headers"@
}

/// The template that `headers` stand for, or the one failure that stands
/// for every header that repeats another.
pub open spec fn template_of_headers(name: Seq<char>, headers: Seq<Seq<char>>) -> Result<
    TemplateView,
    ErrorView,
> {
    if repeated_headers(name, headers).len() == 0 {
        Ok(TemplateView { columns: header_columns(headers), ..blank_template(name) })
    } else {
        Err(
            ErrorView {
                kind: Kind::ErrorList,
                message: msg_bad_headers(name),
                column: None,
                line: None,
                causes: repeated_headers(name, headers),
            },
        )
    }
}

/// What a template or its failure holds, as plain values.
pub open spec fn template_outcome_view(outcome: Result<RowTemplate, SubparError>) -> Result<
    TemplateView,
    ErrorView,
> {
    match outcome {
        Ok(t) => Ok(t@),
        Err(e) => Err(e@),
    }
}

impl RowTemplate {
    /// The template of a source that comes with headers and without any
    /// declaration: one text column for each header, none of which must be
    /// there. Every header that repeats another is refused, and all that
    /// were come back in one failure.
    pub fn from_headers(name: String, headers: &Vec<String>) -> (template: Result<
        RowTemplate,
        SubparError,
    >)
        ensures
            template_outcome_view(template) == template_of_headers(name@, views_of(headers@)),
            template matches Ok(t) ==> t@.wf(),
    {
        let ghost title = name@;
        let ghost all = views_of(headers@);
        let mut template = RowTemplate::new(name, None);
        let mut failures: Vec<Cause> = Vec::new();
        assert(cause_views(failures@) =~= Seq::<CauseView>::empty());
        let mut i: usize = 0;
        while i < headers.len()
            invariant
                i <= headers.len(),
                all == views_of(headers@),
                template@.name == title,
                template@.wf(),
                template@ == (TemplateView { columns: template@.columns, ..blank_template(title) }),
                template@.columns == header_columns(all.take(i as int)),
                cause_views(failures@) == repeated_headers(title, all.take(i as int)),
            decreases headers.len() - i,
        {
            proof {
                assert(all.take(i + 1).drop_last() == all.take(i as int));
                assert(all.take(i + 1).last() == headers@[i as int]@);
            }
            let ghost before = failures@;
            match template.add_column(headers[i].as_str(), None, false) {
                Ok(_) => {},
                Err(e) => {
                    let cause = e.in_column(headers[i].as_str()).into_cause();
                    failures.push(cause);
                    assert(cause_views(failures@) =~= cause_views(before).push(cause@));
                },
            }
            i = i + 1;
        }
        assert(all.take(i as int) == all);
        if failures.len() == 0 {
            Ok(template)
        } else {
            let message = concat3(
                "Could not build the row template '",
                template.name.as_str(),
                "' from the headers",
            );
            Err(SubparError::group(message.as_str(), failures))
        }
    }
}

/// A record type that rows can be turned into.
pub trait SubparRow: Sized {
    /// The template that rows of this type follow.
    fn get_template() -> RowTemplate;

    /// Makes the record of a row that follows the template.
    fn from_row(row: Row) -> Result<Self, SubparError>;
}

/// The place where the checks of a schema will hang.
pub struct Validator {
}

impl Validator {
    /// Checks `value` against `schema`. No check is stored in a schema yet:
    /// every value passes, and none is changed.
    pub fn validate(schema: &SchemaObject, value: &mut CanonicalValue) -> (checked: Result<
        (),
        SubparError,
    >)
        ensures
            checked is Ok,
            *final(value) == *old(value),
    {
        Ok(())
    }
}

impl From<RootSchema> for RowTemplate {
    /// The template that the document `schema` declares, under the title of
    /// the document.
    fn from(schema: RootSchema) -> (template: RowTemplate)
        ensures
            template@ == template_of(title_of(schema@), Some(schema@)),
            template@.wf(),
    {
        RowTemplate::from_schema(schema)
    }
}

impl vstd::std_specs::convert::FromSpecImpl<RootSchema> for RowTemplate {
    /// Two templates made of one document hold the same, and need not be
    /// the same: what `from` gives is stated of its view.
    open spec fn obeys_from_spec() -> bool {
        false
    }

    open spec fn from_spec(schema: RootSchema) -> RowTemplate {
        arbitrary()
    }
}

} // verus!
