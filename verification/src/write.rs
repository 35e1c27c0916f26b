//! The sink that formatted text is written to.

use vstd::prelude::*;
use crate::color_category::ColorCategory;
use crate::value::SeStringError;

verus! {

/// A text style that a macro switches on or off.
#[derive(Debug, PartialEq, Eq, Structural, Clone, Copy)]
pub enum Style {
    Bold,
    Italic,
    Outline,
    Shadow,
}

/// The part of the glyphs that a colour applies to.
#[derive(Debug, PartialEq, Eq, Structural, Clone, Copy)]
pub enum ColorUsage {
    Foreground,
    Edge,
    Shadow,
}

/// A destination for formatted text. Only `write_str` must be provided;
/// styles and colours are ignored unless an implementation handles them.
pub trait Write: Sized {
    /// What writing `s` does: the sink goes from `before` to `after` and the
    /// write ends with `r`.
    spec fn writes(before: &Self, s: Seq<char>, after: &Self, r: Result<(), SeStringError>) -> bool;

    /// Writes an owned string: the same as writing its characters with
    /// `write_str`.
    fn write(&mut self, s: String) -> (r: Result<(), SeStringError>)
        ensures
            Self::writes(old(self), s@, final(self), r),
    {
        self.write_str(s.as_str())
    }

    /// Writes text.
    fn write_str(&mut self, s: &str) -> (r: Result<(), SeStringError>)
        ensures
            Self::writes(old(self), s@, final(self), r),
    ;

    /// Switches a style; the provided method ignores it.
    fn set_style(&mut self, style: Style, enabled: bool) -> (r: Result<(), SeStringError>)
        default_ensures
            r is Ok,
            *final(self) == *old(self),
    {
        Ok(())
    }

    /// Opens a colour; the provided method ignores it.
    fn push_color_type(&mut self, usage: ColorUsage, color: ColorCategory) -> (r: Result<(), SeStringError>)
        default_ensures
            r is Ok,
            *final(self) == *old(self),
    {
        Ok(())
    }

    /// Closes a colour; the provided method ignores it.
    fn pop_color_type(&mut self, usage: ColorUsage) -> (r: Result<(), SeStringError>)
        default_ensures
            r is Ok,
            *final(self) == *old(self),
    {
        Ok(())
    }
}

} // verus!
