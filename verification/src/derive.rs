//! What a field of a record type can say of its column.

use vstd::prelude::*;
use crate::errors::Kind;
use crate::errors::SubparError;
use crate::errors::plain_error;
use crate::errors::text_view;
use crate::text::concat3;
use crate::text::same_text;

verus! {

/// The options of one field.
#[derive(Clone, PartialEq, Eq, Debug)]
pub struct FieldOptions {
    /// The name of the column, where it is not the name of the field.
    pub rename: Option<String>,
    /// The name of the function that reads the cell, where the usual one
    /// does not do.
    pub parser: Option<String>,
}

/// The options of one field, as plain values.
pub struct FieldOptionsView {
    pub rename: Option<Seq<char>>,
    pub parser: Option<Seq<char>>,
}

impl View for FieldOptions {
    type V = FieldOptionsView;

    open spec fn view(&self) -> FieldOptionsView {
        FieldOptionsView { rename: text_view(self.rename), parser: text_view(self.parser) }
    }
}

/// The message for an option that fields do not have.
pub open spec fn msg_unknown_option(key: Seq<char>) -> Seq<char> {
    "parse_group error: '"@ + key + "' is an unknown option"@
}

impl FieldOptions {
    /// No option is set.
    pub fn default() -> (options: FieldOptions)
        ensures
            options@ == (FieldOptionsView { rename: None, parser: None }),
    {
        FieldOptions { rename: None, parser: None }
    }

    /// The options with `key` set to `value`. A field has the options
    /// `rename` and `parser` and no other.
    pub fn with_option(self, key: &str, value: String) -> (options: Result<
        FieldOptions,
        SubparError,
    >)
        ensures
            if key@ == "rename"@ {
                options matches Ok(o) && o@ == (FieldOptionsView { rename: Some(value@), ..self@ })
            } else if key@ == "parser"@ {
                options matches Ok(o) && o@ == (FieldOptionsView { parser: Some(value@), ..self@ })
            } else {
                options matches Err(e) && e@ == plain_error(
                    Kind::BadValue,
                    msg_unknown_option(key@),
                )
            },
    {
        if same_text(key, "rename") {
            Ok(FieldOptions { rename: Some(value), parser: self.parser })
        } else if same_text(key, "parser") {
            Ok(FieldOptions { rename: self.rename, parser: Some(value) })
        } else {
            Err(
                SubparError::new(
                    Kind::BadValue,
                    concat3("parse_group error: '", key, "' is an unknown option"),
                ),
            )
        }
    }
}

} // verus!
