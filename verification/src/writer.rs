//! The wiki writer: collects text and turns style and colour changes into
//! wiki markup.

use vstd::prelude::*;
use crate::color_category::ColorCategory;
use crate::value::SeStringError;
use crate::write::{ColorUsage, Style, Write};

verus! {

/// Collects formatted text, tracking the open styles and colour.
#[derive(Debug)]
pub struct CGWikiWriter {
    pub buffer: String,
    pub is_italic: bool,
    pub is_bold: bool,
    pub is_edge: bool,
    pub is_shadow: bool,
    pub color_category: ColorCategory,
}

/// A writer as a mathematical object.
pub struct WriterView {
    pub buffer: Seq<char>,
    pub is_italic: bool,
    pub is_bold: bool,
    pub is_edge: bool,
    pub is_shadow: bool,
    pub color_category: ColorCategory,
}

impl View for CGWikiWriter {
    type V = WriterView;

    open spec fn view(&self) -> WriterView {
        WriterView {
            buffer: self.buffer@,
            is_italic: self.is_italic,
            is_bold: self.is_bold,
            is_edge: self.is_edge,
            is_shadow: self.is_shadow,
            color_category: self.color_category,
        }
    }
}

/// A fresh writer: nothing written, no bold or italic, edge and shadow on,
/// no colour.
pub open spec fn fresh_writer() -> WriterView {
    WriterView {
        buffer: Seq::empty(),
        is_italic: false,
        is_bold: false,
        is_edge: true,
        is_shadow: true,
        color_category: ColorCategory::NoColor,
    }
}

/// The writer after `s` is appended.
pub open spec fn written(w: WriterView, s: Seq<char>) -> WriterView {
    WriterView { buffer: w.buffer + s, ..w }
}

/// The writer after a style is switched. Bold and italic emit their wiki
/// quote marks when they change; outline and shadow only change flags (the
/// shadow flag follows a comparison with the edge flag).
pub open spec fn styled(w: WriterView, style: Style, enabled: bool) -> WriterView {
    match style {
        Style::Bold => if enabled != w.is_bold {
            WriterView { buffer: w.buffer + "'''"@, is_bold: enabled, ..w }
        } else {
            w
        },
        Style::Italic => if enabled != w.is_italic {
            WriterView { buffer: w.buffer + "''"@, is_italic: enabled, ..w }
        } else {
            w
        },
        Style::Outline => if enabled != w.is_edge {
            WriterView { is_edge: enabled, ..w }
        } else {
            w
        },
        Style::Shadow => if enabled != w.is_edge {
            WriterView { is_shadow: enabled, ..w }
        } else {
            w
        },
    }
}

/// The markup that opens a foreground colour.
pub open spec fn color_open(color: ColorCategory) -> Seq<char> {
    match color {
        ColorCategory::Hint => "<span class=\"color-hint\">"@,
        ColorCategory::QuestSync => "<span class=\"color-questsync\">"@,
        ColorCategory::Adjusted => "<span class=\"color-adjusted\">"@,
        ColorCategory::Ascian => "<span class=\"color-ascian\">"@,
        ColorCategory::White => "<span class=\"color-cosmicquest\">"@,
        ColorCategory::Orange => "{{colorize|```"@,
        ColorCategory::Yellow => "{{colorize|``"@,
        ColorCategory::Accompany => "{{colorize|``"@,
        ColorCategory::Green => "{{colorize|`"@,
        _ => Seq::empty(),
    }
}

/// The markup that closes a foreground colour.
pub open spec fn color_close(color: ColorCategory) -> Seq<char> {
    match color {
        ColorCategory::Hint => "</span>"@,
        ColorCategory::QuestSync => "</span>"@,
        ColorCategory::Adjusted => "</span>"@,
        ColorCategory::Ascian => "</span>"@,
        ColorCategory::White => "</span>"@,
        ColorCategory::Orange => "```}}"@,
        ColorCategory::Yellow => "``}}"@,
        ColorCategory::Accompany => "``}}"@,
        ColorCategory::Green => "`}}"@,
        _ => Seq::empty(),
    }
}

/// The writer after a colour is pushed: only foreground colours are drawn.
pub open spec fn color_pushed(w: WriterView, usage: ColorUsage, color: ColorCategory) -> WriterView {
    if usage == ColorUsage::Foreground {
        WriterView { buffer: w.buffer + color_open(color), color_category: color, ..w }
    } else {
        w
    }
}

/// The writer after a colour is popped: the open foreground colour is closed.
pub open spec fn color_popped(w: WriterView, usage: ColorUsage) -> WriterView {
    if usage == ColorUsage::Foreground {
        WriterView {
            buffer: w.buffer + color_close(w.color_category),
            color_category: ColorCategory::NoColor,
            ..w
        }
    } else {
        w
    }
}

/// The writer after all styles and colours are reset.
pub open spec fn reset(w: WriterView) -> WriterView {
    let w1 = styled(w, Style::Bold, false);
    let w2 = styled(w1, Style::Italic, false);
    let w3 = styled(w2, Style::Outline, true);
    let w4 = styled(w3, Style::Shadow, true);
    let w5 = color_popped(w4, ColorUsage::Edge);
    let w6 = color_popped(w5, ColorUsage::Foreground);
    color_popped(w6, ColorUsage::Shadow)
}

impl CGWikiWriter {
    /// A fresh writer.
    pub fn new() -> (r: Self)
        ensures
            r@ == fresh_writer(),
    {
        Self {
            buffer: String::new(),
            is_italic: false,
            is_bold: false,
            is_edge: true,
            is_shadow: true,
            color_category: ColorCategory::NoColor,
        }
    }

    /// Closes every style and colour that is open.
    pub fn reset_style(&mut self)
        ensures
            final(self)@ == reset(old(self)@),
    {
        let _ = self.set_style(Style::Bold, false);
        let _ = self.set_style(Style::Italic, false);
        let _ = self.set_style(Style::Outline, true);
        let _ = self.set_style(Style::Shadow, true);
        let _ = self.pop_color_type(ColorUsage::Edge);
        let _ = self.pop_color_type(ColorUsage::Foreground);
        let _ = self.pop_color_type(ColorUsage::Shadow);
    }
}

impl Write for CGWikiWriter {
    /// Writing appends the text to the buffer and always succeeds.
    open spec fn writes(before: &Self, s: Seq<char>, after: &Self, r: Result<(), SeStringError>) -> bool {
        after@ == written(before@, s) && r is Ok
    }

    fn write_str(&mut self, s: &str) -> (r: Result<(), SeStringError>)
        ensures
            final(self)@ == written(old(self)@, s@),
            r is Ok,
    {
        self.buffer.append(s);
        Ok(())
    }

    fn set_style(&mut self, style: Style, enabled: bool) -> (r: Result<(), SeStringError>)
        ensures
            final(self)@ == styled(old(self)@, style, enabled),
            r is Ok,
    {
        match style {
            Style::Bold => {
                if enabled != self.is_bold {
                    self.is_bold = enabled;
                    self.buffer.append("'''");
                }
            },
            Style::Italic => {
                if enabled != self.is_italic {
                    self.is_italic = enabled;
                    self.buffer.append("''");
                }
            },
            Style::Outline => {
                if enabled != self.is_edge {
                    self.is_edge = enabled;
                }
            },
            Style::Shadow => {
                if enabled != self.is_edge {
                    self.is_shadow = enabled;
                }
            },
        }
        Ok(())
    }

    fn write(&mut self, s: String) -> (r: Result<(), SeStringError>)
        ensures
            final(self)@ == written(old(self)@, s@),
            r is Ok,
    {
        self.write_str(s.as_str())
    }

    fn push_color_type(&mut self, usage: ColorUsage, color: ColorCategory) -> (r: Result<(), SeStringError>)
        ensures
            final(self)@ == color_pushed(old(self)@, usage, color),
            r is Ok,
    {
        if usage == ColorUsage::Foreground {
            match color {
                ColorCategory::Hint => {
                    self.write_str("<span class=\"color-hint\">")?;
                },
                ColorCategory::QuestSync => {
                    self.write_str("<span class=\"color-questsync\">")?;
                },
                ColorCategory::Adjusted => {
                    self.write_str("<span class=\"color-adjusted\">")?;
                },
                ColorCategory::Ascian => {
                    self.write_str("<span class=\"color-ascian\">")?;
                },
                ColorCategory::White => {
                    self.write_str("<span class=\"color-cosmicquest\">")?;
                },
                ColorCategory::Orange => {
                    self.write_str("{{colorize|```")?;
                },
                ColorCategory::Yellow | ColorCategory::Accompany => {
                    self.write_str("{{colorize|``")?;
                },
                ColorCategory::Green => {
                    self.write_str("{{colorize|`")?;
                },
                _ => {},
            }
            self.color_category = color;
        }
        assert(final(self)@.buffer =~= color_pushed(old(self)@, usage, color).buffer);
        Ok(())
    }

    fn pop_color_type(&mut self, usage: ColorUsage) -> (r: Result<(), SeStringError>)
        ensures
            final(self)@ == color_popped(old(self)@, usage),
            r is Ok,
    {
        if usage == ColorUsage::Foreground {
            match self.color_category {
                ColorCategory::Hint => {
                    self.write_str("</span>")?;
                },
                ColorCategory::QuestSync => {
                    self.write_str("</span>")?;
                },
                ColorCategory::Adjusted => {
                    self.write_str("</span>")?;
                },
                ColorCategory::Ascian => {
                    self.write_str("</span>")?;
                },
                ColorCategory::White => {
                    self.write_str("</span>")?;
                },
                ColorCategory::Orange => {
                    self.write_str("```}}")?;
                },
                ColorCategory::Yellow | ColorCategory::Accompany => {
                    self.write_str("``}}")?;
                },
                ColorCategory::Green => {
                    self.write_str("`}}")?;
                },
                _ => {},
            }
            self.color_category = ColorCategory::NoColor;
        }
        assert(final(self)@.buffer =~= color_popped(old(self)@, usage).buffer);
        Ok(())
    }
}

} // verus!
