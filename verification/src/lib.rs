//! Formatting of game text strings into wiki markup.
//!
//! Text arrives as a parsed string: a sequence of payloads, each either
//! plain text or a macro whose arguments are expressions. The library
//! evaluates the expressions, renders each macro as wiki markup or as a
//! readable tag, and tidies the result.

pub mod text;
pub mod value;
pub mod color_category;
pub mod write;
pub mod writer;
pub mod sestring;
pub mod lookup;
pub mod state;
pub mod clock;
pub mod operator;
pub mod convert_value;
pub mod semantics;
pub mod from_expressions;
pub mod evaluate;
pub mod formatter;
pub mod handle_macro;
pub mod string_process;
pub mod sheet_detail;
pub mod laws;
pub mod answers;
pub mod rendering_laws;
