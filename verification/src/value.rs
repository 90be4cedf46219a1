//! The values that device variables carry.

use vstd::prelude::*;

verus! {

/// A value of a device variable, as it travels in a message.
#[derive(Debug, PartialEq, Eq)]
pub enum Value {
    /// No value yet.
    Null,
    /// A truth value.
    Bool(bool),
    /// A whole number.
    Number(i64),
    /// A free-form string.
    Text(String),
}

/// What a [`Value`] holds, with its text as a sequence of characters.
pub enum ValueView {
    Null,
    Bool(bool),
    Number(i64),
    Text(Seq<char>),
}

impl View for Value {
    type V = ValueView;

    open spec fn view(&self) -> ValueView {
        match self {
            Value::Null => ValueView::Null,
            Value::Bool(b) => ValueView::Bool(*b),
            Value::Number(n) => ValueView::Number(*n),
            Value::Text(s) => ValueView::Text(s@),
        }
    }
}

impl Clone for Value {
    fn clone(&self) -> (r: Self)
        ensures
            r == *self,
    {
        match self {
            Value::Null => Value::Null,
            Value::Bool(b) => Value::Bool(*b),
            Value::Number(n) => Value::Number(*n),
            Value::Text(s) => Value::Text(s.clone()),
        }
    }
}

impl Value {
    /// The number `n` as a value.
    pub fn number(n: u8) -> (r: Self)
        ensures
            r == Value::Number(n as i64),
    {
        Value::Number(n as i64)
    }

    /// The string `s` as a value.
    pub fn text(s: &str) -> (r: Self)
        ensures
            r@ == ValueView::Text(s@),
    {
        Value::Text(s.to_owned())
    }

    /// The number held, if this is a number.
    pub fn as_number(&self) -> (r: Option<i64>)
        ensures
            r == (match *self {
                Value::Number(n) => Some(n),
                _ => None,
            }),
    {
        match self {
            Value::Number(n) => Some(*n),
            _ => None,
        }
    }
}

} // verus!
