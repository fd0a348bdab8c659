//! The canonical value that every converted cell becomes.

use vstd::prelude::*;
use crate::number::Number;
use crate::number::NumberView;

verus! {

/// A value as JSON knows single values: nothing, a truth value, a number or
/// a text. A row of such values, each under its name, is a JSON object.
#[derive(Clone, PartialEq, Eq, Debug)]
pub enum CanonicalValue {
    Null,
    Bool(bool),
    Number(Number),
    String(String),
}

/// What a `CanonicalValue` holds, as plain values.
pub enum ValueView {
    Null,
    Bool(bool),
    Number(NumberView),
    String(Seq<char>),
}

impl View for CanonicalValue {
    type V = ValueView;

    open spec fn view(&self) -> ValueView {
        match self {
            CanonicalValue::Null => ValueView::Null,
            CanonicalValue::Bool(b) => ValueView::Bool(*b),
            CanonicalValue::Number(n) => ValueView::Number(n@),
            CanonicalValue::String(s) => ValueView::String(s@),
        }
    }
}

impl ValueView {
    /// Any number in the value is held in one way only.
    pub open spec fn wf(self) -> bool {
        self matches ValueView::Number(n) ==> n.wf()
    }
}

impl CanonicalValue {
    /// Any number in the value is held in one way only.
    pub open spec fn wf(self) -> bool {
        self@.wf()
    }

    /// A copy of the value.
    pub fn duplicate(&self) -> (v: CanonicalValue)
        ensures
            v@ == self@,
    {
        match self {
            CanonicalValue::Null => CanonicalValue::Null,
            CanonicalValue::Bool(b) => CanonicalValue::Bool(*b),
            CanonicalValue::Number(n) => CanonicalValue::Number(n.duplicate()),
            CanonicalValue::String(s) => CanonicalValue::String(s.clone()),
        }
    }
}

} // verus!
