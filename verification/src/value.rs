//! Values that expressions evaluate to, and the errors of formatting.

use vstd::prelude::*;
use crate::text::{decimal, decimal_string, parse_u32, parse_u32_spec};

verus! {

/// Why a string, a payload, an expression or a macro could not be handled.
#[derive(PartialEq, Eq, Structural, Clone, Copy, Debug)]
pub enum SeStringError {
    /// The input ended inside a payload.
    UnexpectedEof,
    /// A payload's framing was malformed.
    InvalidPayload,
    /// A text payload was not valid UTF-8.
    InvalidText,
    /// An expression could not be decoded or evaluated.
    InvalidExpression,
    /// A macro's arguments were unusable.
    InvalidMacro,
    /// A macro had fewer arguments, or other kinds of arguments, than it needs.
    InsufficientArguments,
}

/// The message shown for an error.
pub open spec fn error_message(e: SeStringError) -> Seq<char> {
    match e {
        SeStringError::UnexpectedEof => "unexpected end of input"@,
        SeStringError::InvalidPayload => "invalid payload"@,
        SeStringError::InvalidText => "invalid text"@,
        SeStringError::InvalidExpression => "invalid expression"@,
        SeStringError::InvalidMacro => "invalid macro"@,
        SeStringError::InsufficientArguments => "insufficient arguments"@,
    }
}

impl SeStringError {
    /// The message shown for this error.
    pub fn message(&self) -> (r: String)
        ensures
            r@ == error_message(*self),
    {
        match self {
            SeStringError::UnexpectedEof => String::from_str("unexpected end of input"),
            SeStringError::InvalidPayload => String::from_str("invalid payload"),
            SeStringError::InvalidText => String::from_str("invalid text"),
            SeStringError::InvalidExpression => String::from_str("invalid expression"),
            SeStringError::InvalidMacro => String::from_str("invalid macro"),
            SeStringError::InsufficientArguments => String::from_str("insufficient arguments"),
        }
    }
}

/// The value of an evaluated expression.
#[derive(Debug)]
pub enum Value {
    U32(u32),
    String(String),
    Unknown,
}

/// A value as a mathematical object.
pub enum Val {
    U32(u32),
    Text(Seq<char>),
    Unknown,
}

impl View for Value {
    type V = Val;

    open spec fn view(&self) -> Val {
        match self {
            Value::U32(n) => Val::U32(*n),
            Value::String(s) => Val::Text(s@),
            Value::Unknown => Val::Unknown,
        }
    }
}

/// A value rendered as text: a number in decimal, a string as itself,
/// an unknown value as the empty string.
pub open spec fn val_text(v: Val) -> Seq<char> {
    match v {
        Val::U32(n) => decimal(n as nat),
        Val::Text(s) => s,
        Val::Unknown => Seq::empty(),
    }
}

/// A value read as a number: a number as itself, a string by its decimal
/// reading (zero where it has none), an unknown value as zero.
pub open spec fn val_number(v: Val) -> u32 {
    match v {
        Val::U32(n) => n,
        Val::Text(s) => match parse_u32_spec(s) {
            Some(n) => n,
            None => 0,
        },
        Val::Unknown => 0,
    }
}

impl Value {
    /// This value rendered as text.
    pub fn to_text(&self) -> (r: String)
        ensures
            r@ == val_text(self@),
    {
        match self {
            Value::U32(n) => decimal_string(*n as u64),
            Value::String(s) => s.clone(),
            Value::Unknown => String::new(),
        }
    }

    /// This value read as a number.
    pub fn to_number(&self) -> (r: u32)
        ensures
            r == val_number(self@),
    {
        match self {
            Value::U32(n) => *n,
            Value::String(s) => match parse_u32(s.as_str()) {
                Some(n) => n,
                None => 0,
            },
            Value::Unknown => 0,
        }
    }
}

} // verus!
