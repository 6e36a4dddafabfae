//! Values that are handed to the host.

use vstd::prelude::*;

verus! {

/// A value as the host receives it: a string, or an error object that
/// carries a message.
#[derive(Debug, PartialEq, Eq)]
pub enum Value {
    /// A string.
    Text(String),
    /// An error object with this message.
    Error(String),
}

/// What a [`Value`] stands for: its kind and its characters.
pub enum ValueView {
    Text(Seq<char>),
    Error(Seq<char>),
}

impl View for Value {
    type V = ValueView;

    open spec fn view(&self) -> ValueView {
        match self {
            Value::Text(s) => ValueView::Text(s@),
            Value::Error(s) => ValueView::Error(s@),
        }
    }
}

impl Value {
    /// The string `s`.
    pub fn text(s: &str) -> (v: Value)
        ensures
            v@ == ValueView::Text(s@),
    {
        Value::Text(s.to_owned())
    }

    /// An error object whose message is `message`.
    pub fn error(message: &str) -> (v: Value)
        ensures
            v@ == ValueView::Error(message@),
    {
        Value::Error(message.to_owned())
    }
}

} // verus!
