//! Parsed game strings: payloads of text and macros, and the expressions
//! that macros take as arguments.

use vstd::prelude::*;
use crate::text::{decimal, push_decimal};
use crate::value::SeStringError;

verus! {

/// A parsed string: its payloads in order, each of which may have failed
/// to decode.
pub struct SeString {
    pub payloads: Vec<Result<Payload, SeStringError>>,
}

/// One payload of a string.
pub enum Payload {
    /// Plain text, or the error met decoding it as UTF-8.
    Text(Result<String, SeStringError>),
    /// A macro with its arguments.
    Macro(MacroPayload),
}

/// A macro: its kind and its argument expressions, each of which may have
/// failed to decode.
pub struct MacroPayload {
    pub kind: MacroKind,
    pub expressions: Vec<Result<Expression, SeStringError>>,
}

impl MacroPayload {
    /// The kind of this macro.
    pub fn kind(&self) -> (r: MacroKind)
        ensures
            r == self.kind,
    {
        self.kind
    }

    /// The arguments, to be taken one at a time.
    pub fn expressions(self) -> (r: Expressions)
        ensures
            r.items@ == self.expressions@,
    {
        Expressions { items: self.expressions }
    }
}

/// Arguments of a macro not taken yet, in order.
pub struct Expressions {
    pub items: Vec<Result<Expression, SeStringError>>,
}

impl Expressions {
    /// Takes the next argument, if there is one.
    pub fn next(&mut self) -> (r: Option<Result<Expression, SeStringError>>)
        ensures
            old(self).items@.len() == 0 ==> r is None && final(self).items@ == old(self).items@,
            old(self).items@.len() > 0 ==> r == Some(old(self).items@[0])
                && final(self).items@ == old(self).items@.drop_first(),
    {
        if self.items.len() == 0 {
            None
        } else {
            let first = self.items.remove(0);
            assert(self.items@ =~= old(self).items@.drop_first());
            Some(first)
        }
    }
}

/// An argument expression.
pub enum Expression {
    U32(u32),
    SeString(SeString),
    Millisecond,
    Second,
    Minute,
    Hour,
    Day,
    Weekday,
    Month,
    Year,
    StackColor,
    GlobalNumber(Box<Expression>),
    GlobalString(Box<Expression>),
    LocalNumber(Box<Expression>),
    LocalString(Box<Expression>),
    Ge(Box<Expression>, Box<Expression>),
    Gt(Box<Expression>, Box<Expression>),
    Le(Box<Expression>, Box<Expression>),
    Lt(Box<Expression>, Box<Expression>),
    Eq(Box<Expression>, Box<Expression>),
    Ne(Box<Expression>, Box<Expression>),
    /// An expression type byte that has no meaning assigned.
    Unknown(u8),
    /// Any other expression (player and object parameters and the like).
    Other,
}

/// The kind of a macro.
#[derive(Debug, PartialEq, Eq, Structural, Clone, Copy)]
pub enum MacroKind {
    SetResetTime,
    SetTime,
    If,
    Switch,
    PcName,
    IfPcGender,
    IfPcName,
    IfSelf,
    NewLine,
    Icon,
    Bold,
    Italic,
    Edge,
    Shadow,
    NonBreakingSpace,
    Icon2,
    Hyphen,
    Num,
    Kilo,
    Sec,
    Float,
    Sheet,
    String,
    Caps,
    Head,
    Split,
    HeadAll,
    Fixed,
    Lower,
    JaNoun,
    EnNoun,
    DeNoun,
    FrNoun,
    ChNoun,
    LowerHead,
    ColorType,
    EdgeColorType,
    Ruby,
    Digit,
    Ordinal,
    Sound,
    LevelPos,
    Color,
    EdgeColor,
    ShadowColor,
    SoftHyphen,
    Key,
    /// A macro code that has no kind assigned.
    Unknown(u8),
    /// A kind this formatter has no rendering for, with its macro code.
    Other(u8),
}


/// The name of a macro kind as its `Debug` rendering gives it: the variant's
/// name, with the macro code in brackets for the kinds that carry one.
pub open spec fn kind_name(kind: MacroKind) -> Seq<char> {
    match kind {
        MacroKind::SetResetTime => "SetResetTime"@,
        MacroKind::SetTime => "SetTime"@,
        MacroKind::If => "If"@,
        MacroKind::Switch => "Switch"@,
        MacroKind::PcName => "PcName"@,
        MacroKind::IfPcGender => "IfPcGender"@,
        MacroKind::IfPcName => "IfPcName"@,
        MacroKind::IfSelf => "IfSelf"@,
        MacroKind::NewLine => "NewLine"@,
        MacroKind::Icon => "Icon"@,
        MacroKind::Bold => "Bold"@,
        MacroKind::Italic => "Italic"@,
        MacroKind::Edge => "Edge"@,
        MacroKind::Shadow => "Shadow"@,
        MacroKind::NonBreakingSpace => "NonBreakingSpace"@,
        MacroKind::Icon2 => "Icon2"@,
        MacroKind::Hyphen => "Hyphen"@,
        MacroKind::Num => "Num"@,
        MacroKind::Kilo => "Kilo"@,
        MacroKind::Sec => "Sec"@,
        MacroKind::Float => "Float"@,
        MacroKind::Sheet => "Sheet"@,
        MacroKind::String => "String"@,
        MacroKind::Caps => "Caps"@,
        MacroKind::Head => "Head"@,
        MacroKind::Split => "Split"@,
        MacroKind::HeadAll => "HeadAll"@,
        MacroKind::Fixed => "Fixed"@,
        MacroKind::Lower => "Lower"@,
        MacroKind::JaNoun => "JaNoun"@,
        MacroKind::EnNoun => "EnNoun"@,
        MacroKind::DeNoun => "DeNoun"@,
        MacroKind::FrNoun => "FrNoun"@,
        MacroKind::ChNoun => "ChNoun"@,
        MacroKind::LowerHead => "LowerHead"@,
        MacroKind::ColorType => "ColorType"@,
        MacroKind::EdgeColorType => "EdgeColorType"@,
        MacroKind::Ruby => "Ruby"@,
        MacroKind::Digit => "Digit"@,
        MacroKind::Ordinal => "Ordinal"@,
        MacroKind::Sound => "Sound"@,
        MacroKind::LevelPos => "LevelPos"@,
        MacroKind::Color => "Color"@,
        MacroKind::EdgeColor => "EdgeColor"@,
        MacroKind::ShadowColor => "ShadowColor"@,
        MacroKind::SoftHyphen => "SoftHyphen"@,
        MacroKind::Key => "Key"@,
        MacroKind::Unknown(n) => "Unknown("@ + decimal(n as nat) + ")"@,
        MacroKind::Other(n) => "Other("@ + decimal(n as nat) + ")"@,
    }
}

impl MacroKind {
    /// The name of this kind, as `kind_name` gives it.
    pub fn name(&self) -> (r: String)
        ensures
            r@ == kind_name(*self),
    {
        match self {
            MacroKind::SetResetTime => String::from_str("SetResetTime"),
            MacroKind::SetTime => String::from_str("SetTime"),
            MacroKind::If => String::from_str("If"),
            MacroKind::Switch => String::from_str("Switch"),
            MacroKind::PcName => String::from_str("PcName"),
            MacroKind::IfPcGender => String::from_str("IfPcGender"),
            MacroKind::IfPcName => String::from_str("IfPcName"),
            MacroKind::IfSelf => String::from_str("IfSelf"),
            MacroKind::NewLine => String::from_str("NewLine"),
            MacroKind::Icon => String::from_str("Icon"),
            MacroKind::Bold => String::from_str("Bold"),
            MacroKind::Italic => String::from_str("Italic"),
            MacroKind::Edge => String::from_str("Edge"),
            MacroKind::Shadow => String::from_str("Shadow"),
            MacroKind::NonBreakingSpace => String::from_str("NonBreakingSpace"),
            MacroKind::Icon2 => String::from_str("Icon2"),
            MacroKind::Hyphen => String::from_str("Hyphen"),
            MacroKind::Num => String::from_str("Num"),
            MacroKind::Kilo => String::from_str("Kilo"),
            MacroKind::Sec => String::from_str("Sec"),
            MacroKind::Float => String::from_str("Float"),
            MacroKind::Sheet => String::from_str("Sheet"),
            MacroKind::String => String::from_str("String"),
            MacroKind::Caps => String::from_str("Caps"),
            MacroKind::Head => String::from_str("Head"),
            MacroKind::Split => String::from_str("Split"),
            MacroKind::HeadAll => String::from_str("HeadAll"),
            MacroKind::Fixed => String::from_str("Fixed"),
            MacroKind::Lower => String::from_str("Lower"),
            MacroKind::JaNoun => String::from_str("JaNoun"),
            MacroKind::EnNoun => String::from_str("EnNoun"),
            MacroKind::DeNoun => String::from_str("DeNoun"),
            MacroKind::FrNoun => String::from_str("FrNoun"),
            MacroKind::ChNoun => String::from_str("ChNoun"),
            MacroKind::LowerHead => String::from_str("LowerHead"),
            MacroKind::ColorType => String::from_str("ColorType"),
            MacroKind::EdgeColorType => String::from_str("EdgeColorType"),
            MacroKind::Ruby => String::from_str("Ruby"),
            MacroKind::Digit => String::from_str("Digit"),
            MacroKind::Ordinal => String::from_str("Ordinal"),
            MacroKind::Sound => String::from_str("Sound"),
            MacroKind::LevelPos => String::from_str("LevelPos"),
            MacroKind::Color => String::from_str("Color"),
            MacroKind::EdgeColor => String::from_str("EdgeColor"),
            MacroKind::ShadowColor => String::from_str("ShadowColor"),
            MacroKind::SoftHyphen => String::from_str("SoftHyphen"),
            MacroKind::Key => String::from_str("Key"),
            MacroKind::Unknown(n) => {
                let mut s = String::from_str("Unknown(");
                push_decimal(&mut s, *n as u64);
                s.append(")");
                s
            },
            MacroKind::Other(n) => {
                let mut s = String::from_str("Other(");
                push_decimal(&mut s, *n as u64);
                s.append(")");
                s
            },
        }
    }
}

} // verus!
