//! Rendering each kind of macro.

use vstd::prelude::*;
use crate::clock::{add_days_at_hour, utc_hour, utc_weekday_days_from_sunday};
use crate::color_category::ColorCategory;
use crate::convert_value::{list_to_str, vals};
use crate::from_expressions::{take_str, take_u32, take_value, take_value_list, try_take_u32};
use crate::semantics::{take_u32 as take_u32_spec, try_take_u32 as try_take_u32_spec, take_value as take_value_spec,
    take_value_list as take_value_list_spec, take_str as take_str_spec};
use crate::lookup::{get_class_job, get_sheet_col, lookup_sheet, opt_text};
use crate::operator::{vars, EQ, GT};
use crate::semantics::{
    cases_text, color_hex, color_macro, color_type_macro, comparison, custom_if_tag,
    custom_if_with_condition_tag, ends_as, first_index, first_operator_from, gc_rank_text,
    generic_macro, if_comparison_effect, if_effect, if_macro, out_unit, reset_time_macro,
    ruby_macro, set_time_macro, sheet_macro, sheet_tag, single_tag, split_macro, split_text,
    string_macro, style_macro, lemma_take_consumes_one, switch_effect, switch_macro, switch_tags, write_st, Comparison,
};
use crate::operator::operator_names;
use crate::sestring::{Expressions, MacroKind};
use crate::state::CGWState;
use crate::text::{chars_of, decimal, decimal_string, parse_u32, push_decimal, push_hex2, str_eq, string_from_chars};
use crate::value::{SeStringError, Val, Value, val_text};
use crate::write::{ColorUsage, Style, Write};

verus! {

/// Writes text into the state.
fn write_text(state: &mut CGWState, s: &str)
    ensures
        final(state)@ == write_st(old(state)@, s@),
{
    let _ = state.writer.write_str(s);
}

/// Bold on or off, by a numeric argument (non-zero: on).
pub fn bold(arguments: &mut Expressions, state: &mut CGWState) -> (r: Result<(), SeStringError>)
    ensures
        !(style_macro(Style::Bold, old(arguments).items@, old(state)@).2 is Abort) ==> ends_as(style_macro(Style::Bold, old(arguments).items@, old(state)@), final(state)@, final(arguments).items@, out_unit(r)),
        style_macro(Style::Bold, old(arguments).items@, old(state)@).2 is Abort ==> final(state)@.halted && r is Err,
    decreases old(arguments).items@, 7nat,
{
    proof {
        reveal(style_macro);
        reveal(take_u32_spec);
    }
    let enabled = take_u32(arguments, state)?;
    state.writer.set_style(Style::Bold, enabled != 0)
}

/// Italic on or off, by a numeric argument (non-zero: on).
pub fn italic(arguments: &mut Expressions, state: &mut CGWState) -> (r: Result<(), SeStringError>)
    ensures
        !(style_macro(Style::Italic, old(arguments).items@, old(state)@).2 is Abort) ==> ends_as(style_macro(Style::Italic, old(arguments).items@, old(state)@), final(state)@, final(arguments).items@, out_unit(r)),
        style_macro(Style::Italic, old(arguments).items@, old(state)@).2 is Abort ==> final(state)@.halted && r is Err,
    decreases old(arguments).items@, 7nat,
{
    proof {
        reveal(style_macro);
        reveal(take_u32_spec);
    }
    let enabled = take_u32(arguments, state)?;
    state.writer.set_style(Style::Italic, enabled != 0)
}

/// Outline on or off, by a numeric argument (non-zero: on).
pub fn edge(arguments: &mut Expressions, state: &mut CGWState) -> (r: Result<(), SeStringError>)
    ensures
        !(style_macro(Style::Outline, old(arguments).items@, old(state)@).2 is Abort) ==> ends_as(style_macro(Style::Outline, old(arguments).items@, old(state)@), final(state)@, final(arguments).items@, out_unit(r)),
        style_macro(Style::Outline, old(arguments).items@, old(state)@).2 is Abort ==> final(state)@.halted && r is Err,
    decreases old(arguments).items@, 7nat,
{
    proof {
        reveal(style_macro);
        reveal(take_u32_spec);
    }
    let enabled = take_u32(arguments, state)?;
    state.writer.set_style(Style::Outline, enabled != 0)
}

/// Shadow on or off, by a numeric argument (non-zero: on).
pub fn shadow(arguments: &mut Expressions, state: &mut CGWState) -> (r: Result<(), SeStringError>)
    ensures
        !(style_macro(Style::Shadow, old(arguments).items@, old(state)@).2 is Abort) ==> ends_as(style_macro(Style::Shadow, old(arguments).items@, old(state)@), final(state)@, final(arguments).items@, out_unit(r)),
        style_macro(Style::Shadow, old(arguments).items@, old(state)@).2 is Abort ==> final(state)@.halted && r is Err,
    decreases old(arguments).items@, 7nat,
{
    proof {
        reveal(style_macro);
        reveal(take_u32_spec);
    }
    let enabled = take_u32(arguments, state)?;
    state.writer.set_style(Style::Shadow, enabled != 0)
}

/// A colour number as `#RRGGBB`.
fn color_hex_string(c: u32) -> (r: String)
    ensures
        r@ == color_hex(c),
{
    let mut s = String::from_str("#");
    push_hex2(&mut s, ((c / 65536) % 256) as u8);
    push_hex2(&mut s, ((c / 256) % 256) as u8);
    push_hex2(&mut s, (c % 256) as u8);
    s
}

/// A colour macro: `<Color(#RRGGBB)>` and the like, or the closing tag for
/// the stacked colour.
pub fn color(kind: MacroKind, arguments: &mut Expressions, state: &mut CGWState) -> (r: Result<(), SeStringError>)
    ensures
        !(color_macro(kind, old(arguments).items@, old(state)@).2 is Abort) ==> ends_as(color_macro(kind, old(arguments).items@, old(state)@), final(state)@, final(arguments).items@, out_unit(r)),
        color_macro(kind, old(arguments).items@, old(state)@).2 is Abort ==> final(state)@.halted && r is Err,
    decreases old(arguments).items@, 7nat,
{
    proof {
        reveal(color_macro);
        reveal(take_value_spec);
    }
    let tag = match kind {
        MacroKind::Color => "Color",
        MacroKind::ShadowColor => "ShadowColor",
        MacroKind::EdgeColor => "EdgeColor",
        _ => "",
    };
    let args = take_value(arguments, state)?;
    let arg_s: String = match &args {
        Value::U32(c) => color_hex_string(*c),
        _ => args.to_text(),
    };
    assert(arg_s@ == crate::semantics::color_arg(args@));
    assert(tag@ == crate::semantics::color_tag(kind));
    write_color(state, tag, arg_s)
}

/// A colour tag: the stacked colour closes the tag, any other opens it.
fn write_color(state: &mut CGWState, tag: &str, arg_s: String) -> (r: Result<(), SeStringError>)
    ensures
        final(state)@ == write_st(old(state)@, crate::semantics::color_text(tag@, arg_s@)),
        r is Ok,
{
    if str_eq(arg_s.as_str(), "<StackColor>") {
        write_text(state, "</");
        write_text(state, tag);
        write_text(state, ">");
        assert(state@.writer.buffer =~= old(state)@.writer.buffer + ("</"@ + tag@ + ">"@));
        Ok(())
    } else {
        state_write_single(state, tag, arg_s)
    }
}

/// A foreground colour type: a known category opens its colour (zero closes
/// it); any other value is written as a tag.
pub fn color_type(arguments: &mut Expressions, state: &mut CGWState) -> (r: Result<(), SeStringError>)
    ensures
        !(color_type_macro(ColorUsage::Foreground, "ColorType"@, old(arguments).items@, old(state)@).2 is Abort) ==> ends_as(color_type_macro(ColorUsage::Foreground, "ColorType"@, old(arguments).items@, old(state)@),  final(state)@, final(arguments).items@, out_unit(r)),
        color_type_macro(ColorUsage::Foreground, "ColorType"@, old(arguments).items@, old(state)@).2 is Abort ==> final(state)@.halted && r is Err,
    decreases old(arguments).items@, 7nat,
{
    proof {
        reveal(color_type_macro);
        reveal(take_value_spec);
    }
    let arg: Value = take_value(arguments, state)?;
    if let Value::U32(u) = arg {
        let category = ColorCategory::from(u);
        match category {
            ColorCategory::Unknown(_) => state_write_single(state, "ColorType", decimal_string(u as u64)),
            _ => {
                if u == 0 {
                    state.writer.pop_color_type(ColorUsage::Foreground)
                } else {
                    state.writer.push_color_type(ColorUsage::Foreground, category)
                }
            },
        }
    } else {
        let arg_s: String = arg.to_text();
        state_write_single(state, "ColorType", arg_s)
    }
}

/// An edge colour type: a known category is pushed or popped as an edge
/// colour (which draws nothing); any other value is written as a tag.
pub fn edge_color_type(arguments: &mut Expressions, state: &mut CGWState) -> (r: Result<(), SeStringError>)
    ensures
        !(color_type_macro(ColorUsage::Edge, "EdgeColorType"@, old(arguments).items@, old(state)@).2 is Abort) ==> ends_as(color_type_macro(ColorUsage::Edge, "EdgeColorType"@, old(arguments).items@, old(state)@),  final(state)@, final(arguments).items@, out_unit(r)),
        color_type_macro(ColorUsage::Edge, "EdgeColorType"@, old(arguments).items@, old(state)@).2 is Abort ==> final(state)@.halted && r is Err,
    decreases old(arguments).items@, 7nat,
{
    proof {
        reveal(color_type_macro);
        reveal(take_value_spec);
    }
    let arg: Value = take_value(arguments, state)?;
    if let Value::U32(u) = arg {
        let category = ColorCategory::from(u);
        match category {
            ColorCategory::Unknown(_) => state_write_single(state, "EdgeColorType", decimal_string(u as u64)),
            _ => {
                if u == 0 {
                    state.writer.pop_color_type(ColorUsage::Edge)
                } else {
                    state.writer.push_color_type(ColorUsage::Edge, category)
                }
            },
        }
    } else {
        let arg_s: String = arg.to_text();
        state_write_single(state, "EdgeColorType", arg_s)
    }
}

/// A non-breaking space.
pub fn nbsp(_arguments: &mut Expressions, state: &mut CGWState) -> (r: Result<(), SeStringError>)
    ensures
        final(state)@ == write_st(old(state)@, "&nbsp;"@),
        final(_arguments).items@ == old(_arguments).items@,
        r is Ok,
{
    state.writer.write_str("&nbsp;")
}

/// A hyphen.
pub fn hyphen(_arguments: &mut Expressions, state: &mut CGWState) -> (r: Result<(), SeStringError>)
    ensures
        final(state)@ == write_st(old(state)@, "-"@),
        final(_arguments).items@ == old(_arguments).items@,
        r is Ok,
{
    state.writer.write_str("-")
}

/// A soft hyphen.
pub fn soft_hyphen(_arguments: &mut Expressions, state: &mut CGWState) -> (r: Result<(), SeStringError>)
    ensures
        final(state)@ == write_st(old(state)@, "\u{00AD}"@),
        final(_arguments).items@ == old(_arguments).items@,
        r is Ok,
{
    state.writer.write_str("\u{00AD}")
}

/// A line break.
pub fn newline(_arguments: &mut Expressions, state: &mut CGWState) -> (r: Result<(), SeStringError>)
    ensures
        final(state)@ == write_st(old(state)@, "<br>"@),
        final(_arguments).items@ == old(_arguments).items@,
        r is Ok,
{
    state.writer.write_str("<br>")
}

/// Moves the clock to the next reset at the target hour, on the target
/// weekday where one is given.
pub fn reset_time(arguments: &mut Expressions, state: &mut CGWState) -> (r: Result<(), SeStringError>)
    ensures
        !(reset_time_macro(old(arguments).items@, old(state)@).2 is Abort) ==> ends_as(reset_time_macro(old(arguments).items@, old(state)@), final(state)@, final(arguments).items@, out_unit(r)),
        reset_time_macro(old(arguments).items@, old(state)@).2 is Abort ==> final(state)@.halted && r is Err,
    decreases old(arguments).items@, 7nat,
{
    proof {
        reveal(reset_time_macro);
        reveal(take_u32_spec);
        reveal(try_take_u32_spec);
    }
    let ghost args0 = arguments.items@;
    let ghost st0 = state@;
    let target_hour = take_u32(arguments, state)?;
    proof {
        lemma_take_consumes_one(args0, st0);
    }
    assert(args0.len() > 0 && arguments.items@ == args0.drop_first());
    let target_weekday = try_take_u32(arguments, state)?;
    let time = state.time;
    let mut day_offset: i64 = 0;
    // Get the offset required to reach the target weekday. If the target is in
    // the past this week, move to next week.
    if let Some(target_weekday) = target_weekday {
        let current_weekday = utc_weekday_days_from_sunday(time);
        day_offset = day_offset + (target_weekday as i64 - current_weekday as i64);
        if day_offset < 0 {
            day_offset = day_offset + 7;
        }
    }
    // If we've not moved forward on the day offset yet, and the target hour has
    // passed, move to the next day.
    if target_hour < utc_hour(time) as u32 && day_offset <= 0 {
        day_offset = day_offset + 1;
    }
    // Past the clock's range, or with an hour beyond a byte, the game's
    // formatter cannot go on.
    if time as i64 + day_offset * 86400 > crate::clock::MAX_TIMESTAMP || target_hour > 255 {
        state.halted = true;
        return Err(SeStringError::InvalidMacro);
    }
    match add_days_at_hour(time, day_offset, target_hour as u8) {
        None => Err(SeStringError::InvalidMacro),
        Some(ts) => {
            if ts > 4294967295 {
                state.halted = true;
                return Err(SeStringError::InvalidMacro);
            }
            state.time = ts as u32;
            Ok(())
        },
    }
}

/// Sets the clock to a timestamp; an unknown value sets it to the epoch.
pub fn set_time(arguments: &mut Expressions, state: &mut CGWState) -> (r: Result<(), SeStringError>)
    ensures
        !(set_time_macro(old(arguments).items@, old(state)@).2 is Abort) ==> ends_as(set_time_macro(old(arguments).items@, old(state)@), final(state)@, final(arguments).items@, out_unit(r)),
        set_time_macro(old(arguments).items@, old(state)@).2 is Abort ==> final(state)@.halted && r is Err,
    decreases old(arguments).items@, 7nat,
{
    proof {
        reveal(set_time_macro);
        reveal(take_value_spec);
    }
    let ts = take_value(arguments, state)?;
    match ts {
        Value::Unknown => {
            state.init_time();
        },
        x => {
            state.time = x.to_number();
        },
    }
    Ok(())
}

/// Whether `op` is a prefix of `cs`.
fn is_prefix(op: &str, cs: &Vec<char>) -> (r: bool)
    ensures
        r == op@.is_prefix_of(cs@),
{
    let ocs = chars_of(op);
    if ocs.len() > cs.len() {
        return false;
    }
    let mut i: usize = 0;
    while i < ocs.len()
        invariant
            ocs@ == op@,
            ocs@.len() <= cs@.len(),
            i <= ocs@.len(),
            forall|j: int| 0 <= j < i ==> ocs@[j] == cs@[j],
        decreases ocs@.len() - i,
    {
        if ocs[i] != cs[i] {
            return false;
        }
        i = i + 1;
    }
    true
}

proof fn lemma_first_index(s: Seq<char>, c: char, i: int)
    requires
        0 <= i <= s.len(),
        forall|j: int| 0 <= j < i ==> s[j] != c,
    ensures
        i < s.len() && s[i] == c ==> first_index(s, c) == Some(i),
        i == s.len() ==> first_index(s, c) is None,
    decreases i,
{
    if i > 0 {
        lemma_first_index(s.drop_first(), c, i - 1);
    } else if s.len() == 0 {
    }
}

proof fn lemma_first_index_found(s: Seq<char>, c: char)
    ensures
        first_index(s, c) matches Some(i) ==> 0 <= i < s.len() && s[i] == c,
    decreases s.len(),
{
    if s.len() > 0 && s[0] != c {
        lemma_first_index_found(s.drop_first(), c);
    }
}

/// The index of the first `c` in `cs`.
fn first_index_of(cs: &Vec<char>, c: char) -> (r: Option<usize>)
    ensures
        match r {
            Some(i) => first_index(cs@, c) == Some(i as int),
            None => first_index(cs@, c) is None,
        },
{
    let mut i: usize = 0;
    while i < cs.len()
        invariant
            i <= cs@.len(),
            forall|j: int| 0 <= j < i ==> cs@[j] != c,
        decreases cs@.len() - i,
    {
        if cs[i] == c {
            proof {
                lemma_first_index(cs@, c, i as int);
            }
            return Some(i);
        }
        i = i + 1;
    }
    proof {
        lemma_first_index(cs@, c, i as int);
    }
    None
}

/// The first operator name, in matching order, that `cs` starts with.
fn first_operator(cs: &Vec<char>) -> (r: Option<&'static str>)
    ensures
        match r {
            Some(op) => first_operator_from(cs@, operator_names()) == Some(op@),
            None => first_operator_from(cs@, operator_names()) is None,
        },
{
    let ops = vars();
    let ghost names = operator_names();
    let mut i: usize = 0;
    assert(names.skip(0) =~= names);
    while i < ops.len()
        invariant
            ops@.map_values(|s: &str| s@) == names,
            names == operator_names(),
            i <= ops@.len(),
            first_operator_from(cs@, names) == first_operator_from(cs@, names.skip(i as int)),
        decreases ops@.len() - i,
    {
        assert(names.skip(i as int)[0] == ops@[i as int]@);
        assert(names.skip(i as int).drop_first() =~= names.skip(i + 1));
        if is_prefix(ops[i], cs) {
            return Some(ops[i]);
        }
        i = i + 1;
    }
    None
}

/// Whether a condition starts like a comparison but cannot be split into
/// its operands (where the game's formatter stops).
pub fn is_malformed_comparison(cond: &str) -> (r: bool)
    ensures
        r == (comparison(cond@) is Malformed),
{
    let cs = chars_of(cond);
    if first_operator(&cs).is_none() {
        return false;
    }
    let p = match first_index_of(&cs, '(') {
        Some(p) => p,
        None => return false,
    };
    let k = match first_index_of(&cs, ',') {
        Some(k) => k,
        None => return false,
    };
    proof {
        lemma_first_index_found(cs@, '(');
        lemma_first_index_found(cs@, ',');
    }
    let last = cs[cs.len() - 1];
    k < p || !((last as u32) < 128) || k + 1 > cs.len() - 1
}

/// Reads a condition as a comparison `op(left,right)`: the operator, the
/// left and the right operand.
pub fn try_get_comparison(cond: &str) -> (r: Option<(String, String, String)>)
    requires
        !(comparison(cond@) is Malformed),
    ensures
        match comparison(cond@) {
            Comparison::Parts(op, x, y) => r matches Some(t) && t.0@ == op && t.1@ == x && t.2@ == y,
            _ => r is None,
        },
{
    let cs = chars_of(cond);
    if let Some(op) = first_operator(&cs) {
        // Indices
        proof {
            lemma_first_index_found(cs@, '(');
            lemma_first_index_found(cs@, ',');
        }
        let after_paren_start = match first_index_of(&cs, '(') {
            Some(p) => p + 1,
            None => return None,
        };
        let comma_start = match first_index_of(&cs, ',') {
            Some(k) => k,
            None => return None,
        };
        let before_paren_end = cs.len() - 1;
        let arg1 = string_from_chars(&cs, after_paren_start, comma_start);
        let arg2 = string_from_chars(&cs, comma_start + 1, before_paren_end);
        Some((String::from_str(op), arg1, arg2))
    } else {
        None
    }
}

/// `<tag(arg)>`
fn state_write_single(state: &mut CGWState, tag: &str, arg: String) -> (r: Result<(), SeStringError>)
    ensures
        final(state)@ == write_st(old(state)@, single_tag(tag@, arg@)),
        r is Ok,
{
    write_text(state, "<");
    write_text(state, tag);
    write_text(state, "(");
    let _ = state.writer.write(arg);
    write_text(state, ")>");
    assert(state@.writer.buffer =~= old(state)@.writer.buffer + single_tag(tag@, arg@));
    Ok(())
}

fn write_custom_if_tag(state: &mut CGWState, if_type: &str, cond_true: &str, cond_false: &str) -> (r: Result<(), SeStringError>)
    ensures
        final(state)@ == write_st(old(state)@, custom_if_tag(if_type@, cond_true@, cond_false@)),
        r is Ok,
{
    write_text(state, "<");
    write_text(state, if_type);
    write_text(state, ">");
    write_text(state, cond_true);
    if !cond_false.is_empty() {
        write_text(state, "<Else>");
        write_text(state, cond_false);
    }
    write_text(state, "</");
    write_text(state, if_type);
    write_text(state, ">");
    assert(state@.writer.buffer =~= old(state)@.writer.buffer + custom_if_tag(if_type@, cond_true@, cond_false@));
    Ok(())
}

fn write_custom_if_with_condition_tag(state: &mut CGWState, if_type: &str, cond: &str, cond_true: &str, cond_false: &str) -> (r: Result<(), SeStringError>)
    ensures
        final(state)@ == write_st(old(state)@, custom_if_with_condition_tag(if_type@, cond@, cond_true@, cond_false@)),
        r is Ok,
{
    write_text(state, "<");
    write_text(state, if_type);
    write_text(state, "(");
    write_text(state, cond);
    write_text(state, ")>");
    write_text(state, cond_true);
    if !cond_false.is_empty() {
        write_text(state, "<Else>");
        write_text(state, cond_false);
    }
    write_text(state, "</");
    write_text(state, if_type);
    write_text(state, ">");
    assert(state@.writer.buffer =~= old(state)@.writer.buffer
        + custom_if_with_condition_tag(if_type@, cond@, cond_true@, cond_false@));
    Ok(())
}

/// An `If` whose condition reads as a comparison.
fn if_comparison(
    state: &mut CGWState,
    if_type: &str,
    cond: &str,
    op: &str,
    x: &str,
    y: &str,
    a1: &str,
    a2: &str,
) -> (r: Result<(), SeStringError>)
    ensures
        final(state)@ == if_comparison_effect(if_type@, cond@, op@, x@, y@, a1@, a2@, old(state)@),
        r is Ok,
{
    if str_eq(op, GT) && str_eq(x, "<Global(52)>") && str_eq(y, "0") {
        if str_eq(a1, "[Limsa GC Title]") && a2.is_empty() {
            write_text(state, "[Limsa GC Title]");
            Ok(())
        } else {
            write_custom_if_tag(state, "IfLimsaGC", a1, a2)
        }
    } else if str_eq(op, GT) && str_eq(x, "<Global(53)>") && str_eq(y, "0") {
        if str_eq(a1, "[Gridania GC Title]") && a2.is_empty() {
            write_text(state, "[Gridania GC Title]");
            Ok(())
        } else {
            write_custom_if_tag(state, "IfGridaniaGC", a1, a2)
        }
    } else if str_eq(op, GT) && str_eq(x, "<Global(54)>") && str_eq(y, "0") {
        if str_eq(a1, "[Ul'dah GC Title]") && a2.is_empty() {
            write_text(state, "[Ul'dah GC Title]");
            Ok(())
        } else {
            write_custom_if_tag(state, "IfUldahGC", a1, a2)
        }
    } else if str_eq(op, EQ) && str_eq(x, "<Global(68)>") {
        let job = match parse_u32(y) {
            Some(f) => get_class_job(state, f),
            None => None,
        };
        if let Some(job_name) = job {
            write_custom_if_with_condition_tag(state, "IfClassJob", job_name.as_str(), a1, a2)
        } else {
            write_custom_if_with_condition_tag(state, "IfClassJob", y, a1, a2)
        }
    } else if str_eq(op, EQ) && str_eq(x, "<Global(80)>") && str_eq(y, "0") && str_eq(a1, "<ColorType(546)>")
        && str_eq(a2, "<Icon2(15)> / <Icon2(8)>") {
        write_text(state, "{{cutscene interact controls}}");
        Ok(())
    } else {
        write_custom_if_with_condition_tag(state, if_type, cond, a1, a2)
    }
}

/// A conditional with its condition and branches rendered as text.
fn write_if(state: &mut CGWState, if_type: &str, cond: &str, a1: &str, a2: &str) -> (r: Result<(), SeStringError>)
    ensures
        !(if_effect(if_type@, cond@, a1@, a2@, old(state)@).1 is Abort) ==> (final(state)@, out_unit(r)) == if_effect(if_type@, cond@, a1@, a2@, old(state)@),
        if_effect(if_type@, cond@, a1@, a2@, old(state)@).1 is Abort ==> final(state)@.halted && r is Err,
{
    if str_eq(a1, a2) {
        write_text(state, a1);
        Ok(())
    } else if let Some(val) = parse_u32(cond) {
        if val != 0 {
            write_text(state, a1);
        } else {
            write_text(state, a2);
        }
        Ok(())
    } else if str_eq(if_type, "If") {
        if is_malformed_comparison(cond) {
            state.halted = true;
            return Err(SeStringError::InvalidMacro);
        }
        if let Some(comparison) = try_get_comparison(cond) {
            if_comparison(state, if_type, cond, comparison.0.as_str(), comparison.1.as_str(), comparison.2.as_str(), a1, a2)
        } else {
            if str_eq(cond, "<Global(4)>") {
                write_text(state, "{{alternatives|f=");
                write_text(state, a1);
                write_text(state, "|m=");
                write_text(state, a2);
                write_text(state, "}}");
                assert(state@.writer.buffer =~= old(state)@.writer.buffer + ("{{alternatives|f="@ + a1@ + "|m="@ + a2@ + "}}"@));
                Ok(())
            } else if str_eq(cond, "true") {
                write_text(state, a1);
                Ok(())
            } else if str_eq(cond, "false") {
                write_text(state, a2);
                Ok(())
            } else {
                write_custom_if_with_condition_tag(state, if_type, cond, a1, a2)
            }
        }
    } else {
        write_custom_if_with_condition_tag(state, if_type, cond, a1, a2)
    }
}

/// A conditional macro (`If`, `IfSelf`, `IfPcGender`, `IfPcName`).
pub fn r_if(if_type: &str, arguments: &mut Expressions, state: &mut CGWState) -> (r: Result<(), SeStringError>)
    ensures
        !(if_macro(if_type@, old(arguments).items@, old(state)@).2 is Abort) ==> ends_as(if_macro(if_type@, old(arguments).items@, old(state)@), final(state)@, final(arguments).items@, out_unit(r)),
        if_macro(if_type@, old(arguments).items@, old(state)@).2 is Abort ==> final(state)@.halted && r is Err,
    decreases old(arguments).items@, 7nat,
{
    proof {
        reveal(if_macro);
        reveal(take_value_list_spec);
    }
    let arg_list = take_value_list(arguments, state)?;
    if arg_list.len() < 3 {
        state.halted = true;
        return Err(SeStringError::InsufficientArguments);
    }
    assert(vals(arg_list@)[0] == arg_list@[0]@ && vals(arg_list@)[1] == arg_list@[1]@ && vals(arg_list@)[2] == arg_list@[2]@);
    let cond: String = arg_list[0].to_text();
    let a1: String = arg_list[1].to_text();
    let a2: String = arg_list[2].to_text();
    write_if(state, if_type, cond.as_str(), a1.as_str(), a2.as_str())
}

/// `<Switch(var)>` with a case for each value after the first.
fn write_switch_tags(state: &mut CGWState, var: &str, arg_list: &Vec<Value>) -> (r: Result<(), SeStringError>)
    requires
        arg_list@.len() >= 1,
    ensures
        final(state)@ == write_st(old(state)@, switch_tags(var@, vals(arg_list@))),
        r is Ok,
{
    let ghost vs = vals(arg_list@);
    write_text(state, "<Switch(");
    write_text(state, var);
    write_text(state, ")>");
    assert(vs.drop_first().take(0) =~= Seq::<Val>::empty());
    assert(state@.writer.buffer =~= old(state)@.writer.buffer + ("<Switch("@ + var@ + ")>"@ + cases_text(vs.drop_first().take(0))));
    let mut index: usize = 1;
    while index < arg_list.len()
        invariant
            vs == vals(arg_list@),
            1 <= index <= arg_list@.len(),
            state@ == write_st(old(state)@, "<Switch("@ + var@ + ")>"@ + cases_text(vs.drop_first().take(index - 1))),
        decreases arg_list@.len() - index,
    {
        let ghost before = state@;
        let arg_s: String = arg_list[index].to_text();
        write_text(state, "<Case(");
        let mut n = String::new();
        push_decimal(&mut n, (index - 1) as u64);
        write_text(state, n.as_str());
        write_text(state, ")>");
        write_text(state, arg_s.as_str());
        write_text(state, "</Case>");
        proof {
            let t = vs.drop_first().take(index as int);
            assert(t.drop_last() =~= vs.drop_first().take(index - 1));
            assert(t.last() == arg_list@[index as int]@);
            assert(state@.writer.buffer =~= old(state)@.writer.buffer + ("<Switch("@ + var@ + ")>"@ + cases_text(t)));
        }
        index = index + 1;
    }
    write_text(state, "</Switch>");
    assert(vs.drop_first().take(index - 1) =~= vs.drop_first());
    assert(state@.writer.buffer =~= old(state)@.writer.buffer + switch_tags(var@, vs));
    Ok(())
}

/// `{{alternatives|limsa=..|gridania=..|uldah=..}}`
fn write_city_alternatives(state: &mut CGWState, a1: &str, a2: &str, a3: &str)
    ensures
        final(state)@ == write_st(old(state)@, "{{alternatives|limsa="@ + a1@ + "|gridania="@ + a2@
            + "|uldah="@ + a3@ + "}}"@),
{
    write_text(state, "{{alternatives|limsa=");
    write_text(state, a1);
    write_text(state, "|gridania=");
    write_text(state, a2);
    write_text(state, "|uldah=");
    write_text(state, a3);
    write_text(state, "}}");
    assert(state@.writer.buffer =~= old(state)@.writer.buffer + ("{{alternatives|limsa="@ + a1@ + "|gridania="@ + a2@
        + "|uldah="@ + a3@ + "}}"@));
}

/// `{{alternatives|hyur=..|elezen=..|...|viera=..}}`
fn write_race_alternatives(state: &mut CGWState, a: &Vec<String>)
    requires
        a@.len() == 8,
    ensures
        final(state)@ == write_st(old(state)@, "{{alternatives|hyur="@ + a@[0]@ + "|elezen="@ + a@[1]@
            + "|lalafell="@ + a@[2]@ + "|miqote="@ + a@[3]@ + "|roegadyn="@ + a@[4]@ + "|aura="@ + a@[5]@
            + "|hrothgar="@ + a@[6]@ + "|viera="@ + a@[7]@ + "}}"@),
{
    write_text(state, "{{alternatives|hyur=");
    write_text(state, a[0].as_str());
    write_text(state, "|elezen=");
    write_text(state, a[1].as_str());
    write_text(state, "|lalafell=");
    write_text(state, a[2].as_str());
    write_text(state, "|miqote=");
    write_text(state, a[3].as_str());
    write_text(state, "|roegadyn=");
    write_text(state, a[4].as_str());
    write_text(state, "|aura=");
    write_text(state, a[5].as_str());
    write_text(state, "|hrothgar=");
    write_text(state, a[6].as_str());
    write_text(state, "|viera=");
    write_text(state, a[7].as_str());
    write_text(state, "}}");
    assert(state@.writer.buffer =~= old(state)@.writer.buffer + ("{{alternatives|hyur="@ + a@[0]@ + "|elezen="@ + a@[1]@
        + "|lalafell="@ + a@[2]@ + "|miqote="@ + a@[3]@ + "|roegadyn="@ + a@[4]@ + "|aura="@ + a@[5]@
        + "|hrothgar="@ + a@[6]@ + "|viera="@ + a@[7]@ + "}}"@));
}

/// A switch over its evaluated arguments.
fn write_switch(state: &mut CGWState, arg_list: &Vec<Value>) -> (r: Result<(), SeStringError>)
    requires
        arg_list@.len() >= 1,
    ensures
        !(switch_effect(vals(arg_list@), old(state)@).1 is Abort) ==> (final(state)@, out_unit(r)) == switch_effect(vals(arg_list@), old(state)@),
        switch_effect(vals(arg_list@), old(state)@).1 is Abort ==> final(state)@.halted && r is Err,
{
    let ghost vs = vals(arg_list@);
    assert(vs.len() == arg_list@.len());
    let a_sz: u32 = if arg_list.len() <= 4294967295 { arg_list.len() as u32 } else { 0 };
    assert(vs[0] == arg_list@[0]@);
    match &arg_list[0] {
        Value::String(s) => {
            if str_eq(s.as_str(), "<Global(70)>") {
                if arg_list.len() < 4 {
                    state.halted = true;
                    return Err(SeStringError::InsufficientArguments);
                }
                assert(vs[1] == arg_list@[1]@ && vs[2] == arg_list@[2]@ && vs[3] == arg_list@[3]@);
                let a1: String = arg_list[1].to_text();
                let a2: String = arg_list[2].to_text();
                let a3: String = arg_list[3].to_text();
                write_city_alternatives(state, a1.as_str(), a2.as_str(), a3.as_str());
                Ok(())
            } else if str_eq(s.as_str(), "<Global(71)>") {
                if arg_list.len() < 9 {
                    state.halted = true;
                    return Err(SeStringError::InsufficientArguments);
                }
                let mut texts: Vec<String> = Vec::new();
                let mut j: usize = 1;
                while j < 9
                    invariant
                        vs == vals(arg_list@),
                        arg_list@.len() >= 9,
                        1 <= j <= 9,
                        texts@.len() == j - 1,
                        forall|t: int| 0 <= t < j - 1 ==> #[trigger] texts@[t]@ == val_text(vs[t + 1]),
                    decreases 9 - j,
                {
                    assert(vs[j as int] == arg_list@[j as int]@);
                    texts.push(arg_list[j].to_text());
                    j = j + 1;
                }
                assert(texts@[0]@ == val_text(vs[1]) && texts@[1]@ == val_text(vs[2]) && texts@[2]@ == val_text(vs[3])
                    && texts@[3]@ == val_text(vs[4]) && texts@[4]@ == val_text(vs[5]) && texts@[5]@ == val_text(vs[6])
                    && texts@[6]@ == val_text(vs[7]) && texts@[7]@ == val_text(vs[8]));
                write_race_alternatives(state, &texts);
                Ok(())
            } else {
                write_switch_tags(state, s.as_str(), arg_list)
            }
        },
        Value::U32(u) => {
            if *u < a_sz {
                assert(vs[*u as int] == arg_list@[*u as int]@);
                let nth: String = arg_list[*u as usize].to_text();
                state.writer.write(nth)
            } else {
                let var = decimal_string(*u as u64);
                write_switch_tags(state, var.as_str(), arg_list)
            }
        },
        Value::Unknown => {
            let empty = String::new();
            write_switch_tags(state, empty.as_str(), arg_list)
        },
    }
}

/// A switch: alternatives by city or race, the case a number selects, or
/// the switch written out with its cases.
pub fn switch(arguments: &mut Expressions, state: &mut CGWState) -> (r: Result<(), SeStringError>)
    ensures
        !(switch_macro(old(arguments).items@, old(state)@).2 is Abort) ==> ends_as(switch_macro(old(arguments).items@, old(state)@), final(state)@, final(arguments).items@, out_unit(r)),
        switch_macro(old(arguments).items@, old(state)@).2 is Abort ==> final(state)@.halted && r is Err,
    decreases old(arguments).items@, 7nat,
{
    proof {
        reveal(switch_macro);
        reveal(take_value_list_spec);
    }
    let arg_list = take_value_list(arguments, state)?;
    if arg_list.len() == 0 {
        state.halted = true;
        return Err(SeStringError::InsufficientArguments);
    }
    write_switch(state, &arg_list)
}

/// Ruby text: a base text with its annotation.
pub fn ruby(arguments: &mut Expressions, state: &mut CGWState) -> (r: Result<(), SeStringError>)
    ensures
        !(ruby_macro(old(arguments).items@, old(state)@).2 is Abort) ==> ends_as(ruby_macro(old(arguments).items@, old(state)@), final(state)@, final(arguments).items@, out_unit(r)),
        ruby_macro(old(arguments).items@, old(state)@).2 is Abort ==> final(state)@.halted && r is Err,
    decreases old(arguments).items@, 7nat,
{
    proof {
        reveal(ruby_macro);
        reveal(take_str_spec);
    }
    let ghost args0 = arguments.items@;
    let ghost st0 = state@;
    let text: String = take_str(arguments, state)?;
    proof {
        lemma_take_consumes_one(args0, st0);
    }
    assert(args0.len() > 0 && arguments.items@ == args0.drop_first());
    let over: String = take_str(arguments, state)?;
    let ghost mid = state@;
    write_text(state, "<ruby>");
    write_text(state, text.as_str());
    write_text(state, "<rp>(</rp><rt>");
    write_text(state, over.as_str());
    write_text(state, "</rt><rp>)</rp>");
    write_text(state, "</ruby>");
    assert(state@.writer.buffer =~= mid.writer.buffer + ("<ruby>"@ + text@ + "<rp>(</rp><rt>"@ + over@
        + "</rt><rp>)</rp>"@ + "</ruby>"@));
    Ok(())
}

/// A name split into forename or surname, else the split written out.
pub fn split(arguments: &mut Expressions, state: &mut CGWState) -> (r: Result<(), SeStringError>)
    ensures
        !(split_macro(old(arguments).items@, old(state)@).2 is Abort) ==> ends_as(split_macro(old(arguments).items@, old(state)@), final(state)@, final(arguments).items@, out_unit(r)),
        split_macro(old(arguments).items@, old(state)@).2 is Abort ==> final(state)@.halted && r is Err,
    decreases old(arguments).items@, 7nat,
{
    proof {
        reveal(split_macro);
        reveal(take_value_list_spec);
    }
    let arg_list = take_value_list(arguments, state)?;
    if arg_list.len() < 3 {
        state.halted = true;
        return Err(SeStringError::InsufficientArguments);
    }
    let ghost mid = state@;
    assert(vals(arg_list@)[0] == arg_list@[0]@ && vals(arg_list@)[1] == arg_list@[1]@ && vals(arg_list@)[2] == arg_list@[2]@);
    let arg0: String = arg_list[0].to_text();
    let arg1: String = arg_list[1].to_text();
    let arg2: String = arg_list[2].to_text();
    let a = arg0.as_str();
    let b = arg1.as_str();
    let c = arg2.as_str();
    if str_eq(a, "<Global(1)>") && str_eq(b, " ") && str_eq(c, "1") {
        write_text(state, "[Forename]");
    } else if str_eq(a, "<Global(1)>") && str_eq(b, " ") && str_eq(c, "2") {
        write_text(state, "[Surname]");
    } else if str_eq(a, "<PcName(<Local(1)>)>") && str_eq(b, " ") && str_eq(c, "1") {
        write_text(state, "<Forename(1)>");
    } else if str_eq(a, "<PcName(<Local(1)>)>") && str_eq(b, " ") && str_eq(c, "2") {
        write_text(state, "<Surname(1)>");
    } else if str_eq(a, "<PcName(<Local(2)>)>") && str_eq(b, " ") && str_eq(c, "1") {
        write_text(state, "<Forename(2)>");
    } else if str_eq(a, "<PcName(<Local(2)>)>") && str_eq(b, " ") && str_eq(c, "2") {
        write_text(state, "<Surname(2)>");
    } else {
        let joined = list_to_str(arg_list.as_slice())?;
        write_text(state, "<Split(");
        write_text(state, joined.as_str());
        write_text(state, ")>");
        assert(state@.writer.buffer =~= mid.writer.buffer.add(split_text(vals(arg_list@))));
    }
    Ok(())
}

/// The grand company rank name that a sheet reference stands for.
fn gc_rank_name(sheet: &str, row: &str, col: &str) -> (r: Option<String>)
    ensures
        opt_text(r) == gc_rank_text(sheet@, row@, col@),
{
    let limsa = str_eq(sheet, "GCRankLimsaMaleText") || str_eq(sheet, "GCRankLimsaFemaleText");
    let gridania = str_eq(sheet, "GCRankGridaniaMaleText") || str_eq(sheet, "GCRankGridaniaFemaleText");
    let uldah = str_eq(sheet, "GCRankUldahMaleText") || str_eq(sheet, "GCRankUldahFemaleText");
    if limsa && str_eq(row, "<Global(52)>") && str_eq(col, "NameRank") {
        Some(String::from_str("[Limsa GC Rank]"))
    } else if limsa && str_eq(row, "<Global(52)>") && str_eq(col, "Singular") {
        Some(String::from_str("[Limsa GC Title]"))
    } else if gridania && str_eq(row, "<Global(53)>") && str_eq(col, "NameRank") {
        Some(String::from_str("[Gridania GC Rank]"))
    } else if gridania && str_eq(row, "<Global(53)>") && str_eq(col, "Singular") {
        Some(String::from_str("[Gridania GC Title]"))
    } else if uldah && str_eq(row, "<Global(54)>") && str_eq(col, "NameRank") {
        Some(String::from_str("[Ul'dah GC Rank]"))
    } else if uldah && str_eq(row, "<Global(54)>") && str_eq(col, "Singular") {
        Some(String::from_str("[Ul'dah GC Title]"))
    } else {
        None
    }
}

fn write_sheet_tag(state: &mut CGWState, name: &str, row: &str, col: &str) -> (r: Result<(), SeStringError>)
    ensures
        final(state)@ == write_st(old(state)@, sheet_tag(name@, row@, col@)),
        r is Ok,
{
    write_text(state, "<Sheet(");
    write_text(state, name);
    write_text(state, ",");
    write_text(state, row);
    write_text(state, ",");
    write_text(state, col);
    write_text(state, ")>");
    assert(state@.writer.buffer =~= old(state)@.writer.buffer + sheet_tag(name@, row@, col@));
    Ok(())
}

/// A sheet reference: the cell's text where it is known, a grand company
/// rank name, or the reference written out.
pub fn sheet(arguments: &mut Expressions, state: &mut CGWState) -> (r: Result<(), SeStringError>)
    ensures
        !(sheet_macro(old(arguments).items@, old(state)@).2 is Abort) ==> ends_as(sheet_macro(old(arguments).items@, old(state)@), final(state)@, final(arguments).items@, out_unit(r)),
        sheet_macro(old(arguments).items@, old(state)@).2 is Abort ==> final(state)@.halted && r is Err,
    decreases old(arguments).items@, 7nat,
{
    proof {
        reveal(sheet_macro);
        reveal(take_value_list_spec);
    }
    let arg_list = take_value_list(arguments, state)?;
    if arg_list.len() == 3 {
        assert(vals(arg_list@)[0] == arg_list@[0]@ && vals(arg_list@)[1] == arg_list@[1]@ && vals(arg_list@)[2] == arg_list@[2]@);
        let sheet_name: String = arg_list[0].to_text();
        let row_index: String = arg_list[1].to_text();
        let column_index: u32 = arg_list[2].to_number();
        let col_name: String = match get_sheet_col(state, sheet_name.as_str(), column_index) {
            Some(name) => name,
            None => decimal_string(column_index as u64),
        };
        let replace: Option<String> = match parse_u32(row_index.as_str()) {
            Some(idx) => lookup_sheet(state, sheet_name.as_str(), idx, &col_name),
            None => gc_rank_name(sheet_name.as_str(), row_index.as_str(), col_name.as_str()),
        };
        match replace {
            Some(text) => state.writer.write(text),
            None => {
                if str_eq(sheet_name.as_str(), "InstanceContent") {
                    let index_text = decimal_string(column_index as u64);
                    write_sheet_tag(state, sheet_name.as_str(), row_index.as_str(), index_text.as_str())
                } else {
                    write_sheet_tag(state, sheet_name.as_str(), row_index.as_str(), col_name.as_str())
                }
            },
        }
    } else {
        let joined = list_to_str(arg_list.as_slice())?;
        let ghost mid = state@;
        write_text(state, "<Sheet(");
        write_text(state, joined.as_str());
        write_text(state, ")>");
        assert(state@.writer.buffer =~= mid.writer.buffer + ("<Sheet("@ + joined@ + ")>"@));
        Ok(())
    }
}

/// A string argument written as it is.
pub fn string(arguments: &mut Expressions, state: &mut CGWState) -> (r: Result<(), SeStringError>)
    ensures
        !(string_macro(old(arguments).items@, old(state)@).2 is Abort) ==> ends_as(string_macro(old(arguments).items@, old(state)@), final(state)@, final(arguments).items@, out_unit(r)),
        string_macro(old(arguments).items@, old(state)@).2 is Abort ==> final(state)@.halted && r is Err,
    decreases old(arguments).items@, 7nat,
{
    proof {
        reveal(string_macro);
        reveal(take_str_spec);
    }
    // Always 1 arg
    let arg = take_str(arguments, state)?;
    state.writer.write(arg)
}

/// A macro with an unassigned code, written as `<Macro_code(args)>`.
pub fn unknown(lang: u8, arguments: &mut Expressions, state: &mut CGWState) -> (r: Result<(), SeStringError>)
    ensures
        !(generic_macro("Macro_"@ + decimal(lang as nat), old(arguments).items@, old(state)@).2 is Abort) ==> ends_as(generic_macro("Macro_"@ + decimal(lang as nat), old(arguments).items@, old(state)@),  final(state)@, final(arguments).items@, out_unit(r)),
        generic_macro("Macro_"@ + decimal(lang as nat), old(arguments).items@, old(state)@).2 is Abort ==> final(state)@.halted && r is Err,
    decreases old(arguments).items@, 7nat,
{
    proof {
        reveal(generic_macro);
        reveal(take_value_list_spec);
    }
    // 65 may be (Sheet, index, subIndex, column, xrefSheet, xrefSheetColumn)
    let mut name = String::from_str("Macro_");
    push_decimal(&mut name, lang as u64);
    generic(name.as_str(), arguments, state)
}

/// Any macro written out as `<tag(arg,arg,...)>`.
pub fn generic(tag: &str, arguments: &mut Expressions, state: &mut CGWState) -> (r: Result<(), SeStringError>)
    ensures
        !(generic_macro(tag@, old(arguments).items@, old(state)@).2 is Abort) ==> ends_as(generic_macro(tag@, old(arguments).items@, old(state)@), final(state)@, final(arguments).items@, out_unit(r)),
        generic_macro(tag@, old(arguments).items@, old(state)@).2 is Abort ==> final(state)@.halted && r is Err,
    decreases old(arguments).items@, 6nat,
{
    proof {
        reveal(generic_macro);
        reveal(take_value_list_spec);
    }
    let arg_list = take_value_list(arguments, state)?;
    let joined = list_to_str(arg_list.as_slice())?;
    state_write_single(state, tag, joined)
}

} // verus!
