//! What formatting means: the effect of evaluating expressions, taking
//! macro arguments, rendering macros and formatting whole strings, stated
//! as functions from a state to a new state and an outcome.

use vstd::prelude::*;
use crate::clock::{hour_of, weekday_from_sunday, MAX_TIMESTAMP};
use crate::color_category::{category_of, ColorCategory};
use crate::convert_value::{
    compare_value, global_param_text, join_texts, local_param_text, time_field_value, TimeField,
};
use crate::lookup::{cell_lookup, column_lookup, job_lookup, LookupsView};
use crate::operator::{operator_names, EQ, GE, GT, LE, LT, NE};
use crate::sestring::{Expression, MacroKind, MacroPayload, Payload, SeString};
use crate::state::{StateView, FFXIV_EPOCH};
use crate::text::{decimal, hex2, parse_u32_spec};
use crate::value::{SeStringError, Val, Value, val_number, val_text};
use crate::convert_value::vals;
use crate::write::{ColorUsage, Style};
use crate::writer::{color_popped, color_pushed, fresh_writer, reset, styled, written};

verus! {

/// How a step ended: with a result, with an error, or where the formatter
/// cannot go on (the input is outside what it accepts).
pub enum Out<T> {
    Ret(T),
    Fail(SeStringError),
    Abort,
}

/// The failure of a step that did not return, as a failure of another type.
pub open spec fn fail_as<T, U>(o: Out<T>) -> Out<U> {
    match o {
        Out::Fail(e) => Out::Fail(e),
        _ => Out::Abort,
    }
}

/// Arguments of a macro not taken yet.
pub type Args = Seq<Result<Expression, SeStringError>>;

/// The state after `s` is written.
pub open spec fn write_st(st: StateView, s: Seq<char>) -> StateView {
    StateView { writer: written(st.writer, s), ..st }
}

/// `<tag(arg)>`
pub open spec fn single_tag(tag: Seq<char>, arg: Seq<char>) -> Seq<char> {
    "<"@ + tag + "("@ + arg + ")>"@
}

// ---------------------------------------------------------------- expressions

/// The outcome mapped through a global parameter reference.
pub open spec fn out_global(o: Out<Val>) -> Out<Val> {
    match o {
        Out::Ret(v) => Out::Ret(Val::Text(global_param_text(v))),
        _ => fail_as(o),
    }
}

/// The outcome mapped through a local parameter reference.
pub open spec fn out_local(o: Out<Val>) -> Out<Val> {
    match o {
        Out::Ret(v) => Out::Ret(Val::Text(local_param_text(v))),
        _ => fail_as(o),
    }
}

/// The outcome of comparing `left` with the outcome of the right operand.
pub open spec fn out_compare(op: Seq<char>, left: Val, o: Out<Val>) -> Out<Val> {
    match o {
        Out::Ret(v) => Out::Ret(compare_value(op, left, v)),
        _ => fail_as(o),
    }
}

/// The clock reading of the state as a value.
pub open spec fn clock(field: TimeField, st: StateView) -> (StateView, Out<Val>) {
    (st, Out::Ret(Val::U32(time_field_value(field, st.time))))
}

/// The value of an expression. Only the lookup table of the state can change
/// (through strings nested in the expression).
#[verifier::opaque]
pub open spec fn eval(e: Expression, st: StateView) -> (StateView, Out<Val>)
    decreases e, 1nat,
{
    match e {
        Expression::U32(v) => (st, Out::Ret(Val::U32(v))),
        Expression::SeString(s) => eval_sestring(s, st),
        Expression::Millisecond => clock(TimeField::Millisecond, st),
        Expression::Second => clock(TimeField::Second, st),
        Expression::Minute => clock(TimeField::Minute, st),
        Expression::Hour => clock(TimeField::Hour, st),
        Expression::Day => clock(TimeField::Day, st),
        Expression::Weekday => clock(TimeField::Weekday, st),
        Expression::Month => clock(TimeField::Month, st),
        Expression::Year => clock(TimeField::Year, st),
        Expression::StackColor => (st, Out::Ret(Val::Text("<StackColor>"@))),
        Expression::GlobalNumber(i) => {
            let (s1, o) = eval(*i, st);
            (s1, out_global(o))
        },
        Expression::GlobalString(i) => {
            let (s1, o) = eval(*i, st);
            (s1, out_global(o))
        },
        Expression::LocalNumber(i) => {
            let (s1, o) = eval(*i, st);
            (s1, out_local(o))
        },
        Expression::LocalString(i) => {
            let (s1, o) = eval(*i, st);
            (s1, out_local(o))
        },
        Expression::Ge(l, r) => {
            let (s1, a) = eval(*l, st);
            match a {
                Out::Ret(x) => {
                    let (s2, b) = eval(*r, s1);
                    (s2, out_compare(GE@, x, b))
                },
                _ => (s1, fail_as(a)),
            }
        },
        Expression::Gt(l, r) => {
            let (s1, a) = eval(*l, st);
            match a {
                Out::Ret(x) => {
                    let (s2, b) = eval(*r, s1);
                    (s2, out_compare(GT@, x, b))
                },
                _ => (s1, fail_as(a)),
            }
        },
        Expression::Le(l, r) => {
            let (s1, a) = eval(*l, st);
            match a {
                Out::Ret(x) => {
                    let (s2, b) = eval(*r, s1);
                    (s2, out_compare(LE@, x, b))
                },
                _ => (s1, fail_as(a)),
            }
        },
        Expression::Lt(l, r) => {
            let (s1, a) = eval(*l, st);
            match a {
                Out::Ret(x) => {
                    let (s2, b) = eval(*r, s1);
                    (s2, out_compare(LT@, x, b))
                },
                _ => (s1, fail_as(a)),
            }
        },
        Expression::Eq(l, r) => {
            let (s1, a) = eval(*l, st);
            match a {
                Out::Ret(x) => {
                    let (s2, b) = eval(*r, s1);
                    (s2, out_compare(EQ@, x, b))
                },
                _ => (s1, fail_as(a)),
            }
        },
        Expression::Ne(l, r) => {
            let (s1, a) = eval(*l, st);
            match a {
                Out::Ret(x) => {
                    let (s2, b) = eval(*r, s1);
                    (s2, out_compare(NE@, x, b))
                },
                _ => (s1, fail_as(a)),
            }
        },
        Expression::Unknown(u) => (st, Out::Ret(Val::Text("M#"@ + hex2(u)))),
        Expression::Other => (st, Out::Ret(Val::Unknown)),
    }
}

/// The state that a nested string is formatted in: a fresh writer, the
/// outer clock and the outer lookup table.
pub open spec fn nested_state(st: StateView) -> StateView {
    StateView { writer: fresh_writer(), lookups: st.lookups, time: st.time, halted: false }
}

/// The value of a nested string: its formatting with all styles reset.
#[verifier::opaque]
pub open spec fn eval_sestring(s: SeString, st: StateView) -> (StateView, Out<Val>)
    decreases s, 3nat,
{
    let (t1, r) = format_sestring(s, nested_state(st));
    let st1 = StateView { lookups: t1.lookups, ..st };
    match r {
        Out::Ret(_) => (st1, Out::Ret(Val::Text(reset(t1.writer).buffer))),
        _ => (st1, fail_as(r)),
    }
}

/// Formatting a string into the state; the first error stops it.
#[verifier::opaque]
pub open spec fn format_sestring(s: SeString, st: StateView) -> (StateView, Out<()>)
    decreases s, 2nat,
{
    format_payloads(s.payloads@, st)
}

/// Formatting payloads in order; the first error stops it.
#[verifier::opaque]
pub open spec fn format_payloads(ps: Seq<Result<Payload, SeStringError>>, st: StateView) -> (StateView, Out<()>)
    decreases ps, 1nat,
{
    if ps.len() == 0 {
        (st, Out::Ret(()))
    } else {
        match ps[0] {
            Err(e) => (st, Out::Fail(e)),
            Ok(Payload::Text(Err(e))) => (st, Out::Fail(e)),
            Ok(Payload::Text(Ok(t))) => format_payloads(ps.drop_first(), write_st(st, t@)),
            Ok(Payload::Macro(m)) => {
                let (s1, r) = format_macro(m, st);
                match r {
                    Out::Ret(_) => format_payloads(ps.drop_first(), s1),
                    _ => (s1, r),
                }
            },
        }
    }
}

/// Rendering a macro.
#[verifier::opaque]
pub open spec fn format_macro(m: MacroPayload, st: StateView) -> (StateView, Out<()>)
    decreases m, 9nat,
{
    let (s1, _rest, r) = run_macro(m.kind, m.expressions@, st);
    (s1, r)
}

// ------------------------------------------------------------------ arguments

/// Taking the next argument and evaluating it.
#[verifier::opaque]
pub open spec fn take_value(args: Args, st: StateView) -> (StateView, Args, Out<Val>)
    decreases args, 3nat,
{
    if args.len() == 0 {
        (st, args, Out::Fail(SeStringError::InsufficientArguments))
    } else {
        match args[0] {
            Err(e) => (st, args.drop_first(), Out::Fail(e)),
            Ok(x) => {
                let (s1, r) = eval(x, st);
                (s1, args.drop_first(), r)
            },
        }
    }
}

/// Taking the next argument, if there is one, and evaluating it.
#[verifier::opaque]
pub open spec fn try_take_value(args: Args, st: StateView) -> (StateView, Args, Out<Option<Val>>)
    decreases args, 3nat,
{
    if args.len() == 0 {
        (st, args, Out::Ret(None))
    } else {
        match args[0] {
            Err(e) => (st, args.drop_first(), Out::Fail(e)),
            Ok(x) => {
                let (s1, r) = eval(x, st);
                match r {
                    Out::Ret(v) => (s1, args.drop_first(), Out::Ret(Some(v))),
                    _ => (s1, args.drop_first(), fail_as(r)),
                }
            },
        }
    }
}

/// Taking the next argument as a string.
#[verifier::opaque]
pub open spec fn take_str(args: Args, st: StateView) -> (StateView, Args, Out<Seq<char>>)
    decreases args, 4nat,
{
    let (s1, a1, r) = take_value(args, st);
    match r {
        Out::Ret(Val::Text(s)) => (s1, a1, Out::Ret(s)),
        Out::Ret(_) => (s1, a1, Out::Fail(SeStringError::InsufficientArguments)),
        _ => (s1, a1, fail_as(r)),
    }
}

/// Taking the next argument as a number.
#[verifier::opaque]
pub open spec fn take_u32(args: Args, st: StateView) -> (StateView, Args, Out<u32>)
    decreases args, 4nat,
{
    let (s1, a1, r) = take_value(args, st);
    match r {
        Out::Ret(Val::U32(n)) => (s1, a1, Out::Ret(n)),
        Out::Ret(_) => (s1, a1, Out::Fail(SeStringError::InsufficientArguments)),
        _ => (s1, a1, fail_as(r)),
    }
}

/// Taking the next argument, if there is one, as a number.
#[verifier::opaque]
pub open spec fn try_take_u32(args: Args, st: StateView) -> (StateView, Args, Out<Option<u32>>)
    decreases args, 4nat,
{
    let (s1, a1, r) = try_take_value(args, st);
    match r {
        Out::Ret(Some(Val::U32(n))) => (s1, a1, Out::Ret(Some(n))),
        Out::Ret(Some(_)) => (s1, a1, Out::Fail(SeStringError::InsufficientArguments)),
        Out::Ret(None) => (s1, a1, Out::Ret(None)),
        _ => (s1, a1, fail_as(r)),
    }
}

/// Taking and evaluating all remaining arguments, in order.
#[verifier::opaque]
pub open spec fn take_value_list(args: Args, st: StateView) -> (StateView, Args, Out<Seq<Val>>)
    decreases args, 4nat,
{
    if args.len() == 0 {
        (st, args, Out::Ret(Seq::empty()))
    } else {
        match args[0] {
            Err(e) => (st, args.drop_first(), Out::Fail(e)),
            Ok(x) => {
                let (s1, r) = eval(x, st);
                match r {
                    Out::Ret(v) => {
                        let (s2, a2, r2) = take_value_list(args.drop_first(), s1);
                        match r2 {
                            Out::Ret(vs) => (s2, a2, Out::Ret(seq![v].add(vs))),
                            _ => (s2, a2, r2),
                        }
                    },
                    _ => (s1, args.drop_first(), fail_as(r)),
                }
            },
        }
    }
}

// --------------------------------------------------------------------- macros

/// Writing `text`, leaving the arguments untouched.
pub open spec fn text_macro(text: Seq<char>, args: Args, st: StateView) -> (StateView, Args, Out<()>) {
    (write_st(st, text), args, Out::Ret(()))
}

/// Switching a style by a numeric argument (non-zero: on).
#[verifier::opaque]
pub open spec fn style_macro(style: Style, args: Args, st: StateView) -> (StateView, Args, Out<()>)
    decreases args, 7nat,
{
    let (s1, a1, r) = take_u32(args, st);
    match r {
        Out::Ret(n) => (StateView { writer: styled(s1.writer, style, n != 0), ..s1 }, a1, Out::Ret(())),
        _ => (s1, a1, fail_as(r)),
    }
}

/// The tag of a colour macro.
pub open spec fn color_tag(kind: MacroKind) -> Seq<char> {
    match kind {
        MacroKind::Color => "Color"@,
        MacroKind::ShadowColor => "ShadowColor"@,
        MacroKind::EdgeColor => "EdgeColor"@,
        _ => ""@,
    }
}

/// A colour number as `#RRGGBB` (the top byte, alpha, is dropped).
pub open spec fn color_hex(c: u32) -> Seq<char> {
    "#"@ + hex2(((c / 65536) % 256) as u8) + hex2(((c / 256) % 256) as u8) + hex2((c % 256) as u8)
}

/// The argument of a colour macro as text.
pub open spec fn color_arg(v: Val) -> Seq<char> {
    match v {
        Val::U32(c) => color_hex(c),
        _ => val_text(v),
    }
}

/// A colour macro: the stacked colour closes the tag, any other colour
/// opens it.
pub open spec fn color_text(tag: Seq<char>, arg: Seq<char>) -> Seq<char> {
    if arg == "<StackColor>"@ {
        "</"@ + tag + ">"@
    } else {
        single_tag(tag, arg)
    }
}

#[verifier::opaque]
pub open spec fn color_macro(kind: MacroKind, args: Args, st: StateView) -> (StateView, Args, Out<()>)
    decreases args, 7nat,
{
    let (s1, a1, r) = take_value(args, st);
    match r {
        Out::Ret(v) => (write_st(s1, color_text(color_tag(kind), color_arg(v))), a1, Out::Ret(())),
        _ => (s1, a1, fail_as(r)),
    }
}

/// The effect of a colour-type value: a known category is pushed (zero pops
/// the colour), anything else is written as a tag.
pub open spec fn color_type_effect(usage: ColorUsage, tag: Seq<char>, v: Val, st: StateView) -> StateView {
    match v {
        Val::U32(u) => {
            let category = category_of(u);
            if category is Unknown {
                write_st(st, single_tag(tag, decimal(u as nat)))
            } else if u == 0 {
                StateView { writer: color_popped(st.writer, usage), ..st }
            } else {
                StateView { writer: color_pushed(st.writer, usage, category), ..st }
            }
        },
        _ => write_st(st, single_tag(tag, val_text(v))),
    }
}

#[verifier::opaque]
pub open spec fn color_type_macro(usage: ColorUsage, tag: Seq<char>, args: Args, st: StateView) -> (StateView, Args, Out<()>)
    decreases args, 7nat,
{
    let (s1, a1, r) = take_value(args, st);
    match r {
        Out::Ret(v) => (color_type_effect(usage, tag, v, s1), a1, Out::Ret(())),
        _ => (s1, a1, fail_as(r)),
    }
}

/// The number of days to move forward: to the target weekday (next week if
/// it has passed), or to the next day if the target hour has passed today.
pub open spec fn reset_day_offset(time: u32, hour: u32, weekday: Option<u32>) -> int {
    let d0: int = match weekday {
        Some(w) => {
            let d = w - weekday_from_sunday(time as int);
            if d < 0 { d + 7 } else { d }
        },
        None => 0,
    };
    if (hour as int) < hour_of(time as int) && d0 <= 0 { d0 + 1 } else { d0 }
}

/// Moving the clock to the next reset time: the day moves forward by the
/// offset and the hour becomes the target hour.
pub open spec fn reset_time_effect(st: StateView, hour: u32, weekday: Option<u32>) -> (StateView, Out<()>) {
    let t = st.time as int;
    let d = reset_day_offset(st.time, hour, weekday);
    let moved = t + d * 86400;
    if moved > MAX_TIMESTAMP || hour > 255 {
        (st, Out::Abort)
    } else if hour >= 24 {
        (st, Out::Fail(SeStringError::InvalidMacro))
    } else {
        let nt = moved - hour_of(moved) * 3600 + hour * 3600;
        if nt > u32::MAX {
            (st, Out::Abort)
        } else {
            (StateView { time: nt as u32, ..st }, Out::Ret(()))
        }
    }
}

#[verifier::opaque]
pub open spec fn reset_time_macro(args: Args, st: StateView) -> (StateView, Args, Out<()>)
    decreases args, 7nat,
{
    let (s1, a1, r1) = take_u32(args, st);
    match r1 {
        // A number was taken, so `args` was not empty and `a1` is its tail.
        Out::Ret(h) => if args.len() > 0 {
            let (s2, a2, r2) = try_take_u32(args.drop_first(), s1);
            match r2 {
                Out::Ret(wd) => {
                    let (s3, r3) = reset_time_effect(s2, h, wd);
                    (s3, a2, r3)
                },
                _ => (s2, a2, fail_as(r2)),
            }
        } else {
            (s1, a1, Out::Abort)
        },
        _ => (s1, a1, fail_as(r1)),
    }
}

/// Setting the clock: an unknown value sets it to the game's epoch.
#[verifier::opaque]
pub open spec fn set_time_macro(args: Args, st: StateView) -> (StateView, Args, Out<()>)
    decreases args, 7nat,
{
    let (s1, a1, r) = take_value(args, st);
    match r {
        Out::Ret(Val::Unknown) => (StateView { time: FFXIV_EPOCH, ..s1 }, a1, Out::Ret(())),
        Out::Ret(v) => (StateView { time: val_number(v), ..s1 }, a1, Out::Ret(())),
        _ => (s1, a1, fail_as(r)),
    }
}

/// A branch written as a custom tag: `<tag>yes<Else>no</tag>`, without the
/// else part when `no` is empty.
pub open spec fn custom_if_tag(tag: Seq<char>, yes: Seq<char>, no: Seq<char>) -> Seq<char> {
    "<"@ + tag + ">"@ + yes + (if no.len() != 0 { "<Else>"@ + no } else { Seq::empty() }) + "</"@ + tag + ">"@
}

/// A branch written as a tag with its condition: `<tag(cond)>yes<Else>no</tag>`.
pub open spec fn custom_if_with_condition_tag(tag: Seq<char>, cond: Seq<char>, yes: Seq<char>, no: Seq<char>) -> Seq<char> {
    "<"@ + tag + "("@ + cond + ")>"@ + yes + (if no.len() != 0 { "<Else>"@ + no } else { Seq::empty() }) + "</"@ + tag + ">"@
}

/// The index of the first occurrence of `c` in `s`.
pub open spec fn first_index(s: Seq<char>, c: char) -> Option<int>
    decreases s.len(),
{
    if s.len() == 0 {
        None
    } else if s[0] == c {
        Some(0)
    } else {
        match first_index(s.drop_first(), c) {
            Some(i) => Some(i + 1),
            None => None,
        }
    }
}

/// The first operator name, in matching order, that `s` starts with.
pub open spec fn first_operator_from(s: Seq<char>, ops: Seq<Seq<char>>) -> Option<Seq<char>>
    decreases ops.len(),
{
    if ops.len() == 0 {
        None
    } else if ops[0].is_prefix_of(s) {
        Some(ops[0])
    } else {
        first_operator_from(s, ops.drop_first())
    }
}

/// The reading of a condition as a comparison `op(left,right)`.
pub enum Comparison {
    /// Not a comparison.
    NotComparison,
    /// Starts with an operator but cannot be split (the comma comes before
    /// the parenthesis or is the last character, or the last character is
    /// not ASCII); the formatter cannot go on.
    Malformed,
    /// The operator, the left and the right operand.
    Parts(Seq<char>, Seq<char>, Seq<char>),
}

/// A condition read as a comparison: after the operator's name, the left
/// operand runs from after the first `(` to the first `,`, the right one
/// from there to before the last character.
pub open spec fn comparison(cond: Seq<char>) -> Comparison {
    match first_operator_from(cond, operator_names()) {
        None => Comparison::NotComparison,
        Some(op) => match first_index(cond, '(') {
            None => Comparison::NotComparison,
            Some(p) => match first_index(cond, ',') {
                None => Comparison::NotComparison,
                Some(k) => if k < p || !((cond.last() as u32) < 128) || k + 1 > cond.len() - 1 {
                    Comparison::Malformed
                } else {
                    Comparison::Parts(op, cond.subrange(p + 1, k), cond.subrange(k + 1, cond.len() - 1))
                },
            },
        },
    }
}

/// A grand company branch: a title alone when the branch holds just it,
/// else the custom tag.
pub open spec fn gc_branch(title: Seq<char>, tag: Seq<char>, yes: Seq<char>, no: Seq<char>) -> Seq<char> {
    if yes == title && no.len() == 0 {
        title
    } else {
        custom_if_tag(tag, yes, no)
    }
}

/// An `If` whose condition is a comparison.
pub open spec fn if_comparison_effect(
    if_type: Seq<char>,
    cond: Seq<char>,
    op: Seq<char>,
    x: Seq<char>,
    y: Seq<char>,
    yes: Seq<char>,
    no: Seq<char>,
    st: StateView,
) -> StateView {
    if op == GT@ && x == "<Global(52)>"@ && y == "0"@ {
        write_st(st, gc_branch("[Limsa GC Title]"@, "IfLimsaGC"@, yes, no))
    } else if op == GT@ && x == "<Global(53)>"@ && y == "0"@ {
        write_st(st, gc_branch("[Gridania GC Title]"@, "IfGridaniaGC"@, yes, no))
    } else if op == GT@ && x == "<Global(54)>"@ && y == "0"@ {
        write_st(st, gc_branch("[Ul'dah GC Title]"@, "IfUldahGC"@, yes, no))
    } else if op == EQ@ && x == "<Global(68)>"@ {
        match parse_u32_spec(y) {
            Some(n) => {
                let (lk, job) = job_lookup(st.lookups, n);
                let st1 = StateView { lookups: lk, ..st };
                match job {
                    Some(name) => write_st(st1, custom_if_with_condition_tag("IfClassJob"@, name, yes, no)),
                    None => write_st(st1, custom_if_with_condition_tag("IfClassJob"@, y, yes, no)),
                }
            },
            None => write_st(st, custom_if_with_condition_tag("IfClassJob"@, y, yes, no)),
        }
    } else if op == EQ@ && x == "<Global(80)>"@ && y == "0"@ && yes == "<ColorType(546)>"@
        && no == "<Icon2(15)> / <Icon2(8)>"@ {
        write_st(st, "{{cutscene interact controls}}"@)
    } else {
        write_st(st, custom_if_with_condition_tag(if_type, cond, yes, no))
    }
}

/// A conditional with its condition and both branches rendered as text.
pub open spec fn if_effect(if_type: Seq<char>, cond: Seq<char>, yes: Seq<char>, no: Seq<char>, st: StateView) -> (StateView, Out<()>) {
    if yes == no {
        (write_st(st, yes), Out::Ret(()))
    } else if parse_u32_spec(cond) is Some {
        if parse_u32_spec(cond).unwrap() != 0 {
            (write_st(st, yes), Out::Ret(()))
        } else {
            (write_st(st, no), Out::Ret(()))
        }
    } else if if_type == "If"@ {
        match comparison(cond) {
            Comparison::Malformed => (st, Out::Abort),
            Comparison::Parts(op, x, y) => (if_comparison_effect(if_type, cond, op, x, y, yes, no, st), Out::Ret(())),
            Comparison::NotComparison => {
                if cond == "<Global(4)>"@ {
                    (write_st(st, "{{alternatives|f="@ + yes + "|m="@ + no + "}}"@), Out::Ret(()))
                } else if cond == "true"@ {
                    (write_st(st, yes), Out::Ret(()))
                } else if cond == "false"@ {
                    (write_st(st, no), Out::Ret(()))
                } else {
                    (write_st(st, custom_if_with_condition_tag(if_type, cond, yes, no)), Out::Ret(()))
                }
            },
        }
    } else {
        (write_st(st, custom_if_with_condition_tag(if_type, cond, yes, no)), Out::Ret(()))
    }
}

/// A conditional macro: all arguments are taken; it needs at least three.
#[verifier::opaque]
pub open spec fn if_macro(if_type: Seq<char>, args: Args, st: StateView) -> (StateView, Args, Out<()>)
    decreases args, 7nat,
{
    let (s1, a1, r) = take_value_list(args, st);
    match r {
        Out::Ret(list) => if list.len() < 3 {
            (s1, a1, Out::Abort)
        } else {
            let (s2, o) = if_effect(if_type, val_text(list[0]), val_text(list[1]), val_text(list[2]), s1);
            (s2, a1, o)
        },
        _ => (s1, a1, fail_as(r)),
    }
}

/// `<Case(i)>text</Case>` for each value, counting from zero.
pub open spec fn cases_text(vs: Seq<Val>) -> Seq<char>
    decreases vs.len(),
{
    if vs.len() == 0 {
        Seq::empty()
    } else {
        cases_text(vs.drop_last()) + "<Case("@ + decimal((vs.len() - 1) as nat) + ")>"@ + val_text(vs.last()) + "</Case>"@
    }
}

/// A switch written out with its variable and cases.
pub open spec fn switch_tags(var: Seq<char>, list: Seq<Val>) -> Seq<char> {
    "<Switch("@ + var + ")>"@ + cases_text(list.drop_first()) + "</Switch>"@
}

/// The number of values as a `u32` (zero where it does not fit).
pub open spec fn count_u32(n: nat) -> nat {
    if n <= u32::MAX { n } else { 0 }
}

/// A switch over its evaluated arguments (at least one).
pub open spec fn switch_effect(list: Seq<Val>, st: StateView) -> (StateView, Out<()>) {
    match list[0] {
        Val::Text(s) => if s == "<Global(70)>"@ {
            if list.len() < 4 {
                (st, Out::Abort)
            } else {
                (write_st(st, "{{alternatives|limsa="@ + val_text(list[1]) + "|gridania="@ + val_text(list[2])
                    + "|uldah="@ + val_text(list[3]) + "}}"@), Out::Ret(()))
            }
        } else if s == "<Global(71)>"@ {
            if list.len() < 9 {
                (st, Out::Abort)
            } else {
                (write_st(st, "{{alternatives|hyur="@ + val_text(list[1]) + "|elezen="@ + val_text(list[2])
                    + "|lalafell="@ + val_text(list[3]) + "|miqote="@ + val_text(list[4]) + "|roegadyn="@
                    + val_text(list[5]) + "|aura="@ + val_text(list[6]) + "|hrothgar="@ + val_text(list[7])
                    + "|viera="@ + val_text(list[8]) + "}}"@), Out::Ret(()))
            }
        } else {
            (write_st(st, switch_tags(s, list)), Out::Ret(()))
        },
        Val::U32(u) => if (u as nat) < count_u32(list.len()) {
            (write_st(st, val_text(list[u as int])), Out::Ret(()))
        } else {
            (write_st(st, switch_tags(decimal(u as nat), list)), Out::Ret(()))
        },
        Val::Unknown => (write_st(st, switch_tags(Seq::empty(), list)), Out::Ret(())),
    }
}

/// A switch macro: all arguments are taken; it needs at least one.
#[verifier::opaque]
pub open spec fn switch_macro(args: Args, st: StateView) -> (StateView, Args, Out<()>)
    decreases args, 7nat,
{
    let (s1, a1, r) = take_value_list(args, st);
    match r {
        Out::Ret(list) => if list.len() == 0 {
            (s1, a1, Out::Abort)
        } else {
            let (s2, o) = switch_effect(list, s1);
            (s2, a1, o)
        },
        _ => (s1, a1, fail_as(r)),
    }
}

/// Ruby text: a base text with its annotation.
#[verifier::opaque]
pub open spec fn ruby_macro(args: Args, st: StateView) -> (StateView, Args, Out<()>)
    decreases args, 7nat,
{
    let (s1, a1, r1) = take_str(args, st);
    match r1 {
        // A string was taken, so `args` was not empty and `a1` is its tail.
        Out::Ret(text) => if args.len() > 0 {
            let (s2, a2, r2) = take_str(args.drop_first(), s1);
            match r2 {
                Out::Ret(over) => (write_st(s2, "<ruby>"@ + text + "<rp>(</rp><rt>"@ + over + "</rt><rp>)</rp>"@
                    + "</ruby>"@), a2, Out::Ret(())),
                _ => (s2, a2, fail_as(r2)),
            }
        } else {
            (s1, a1, Out::Abort)
        },
        _ => (s1, a1, fail_as(r1)),
    }
}

/// The rendering of a split of a name into forename and surname.
pub open spec fn split_text(list: Seq<Val>) -> Seq<char> {
    let a = val_text(list[0]);
    let b = val_text(list[1]);
    let c = val_text(list[2]);
    if a == "<Global(1)>"@ && b == " "@ && c == "1"@ {
        "[Forename]"@
    } else if a == "<Global(1)>"@ && b == " "@ && c == "2"@ {
        "[Surname]"@
    } else if a == "<PcName(<Local(1)>)>"@ && b == " "@ && c == "1"@ {
        "<Forename(1)>"@
    } else if a == "<PcName(<Local(1)>)>"@ && b == " "@ && c == "2"@ {
        "<Surname(1)>"@
    } else if a == "<PcName(<Local(2)>)>"@ && b == " "@ && c == "1"@ {
        "<Forename(2)>"@
    } else if a == "<PcName(<Local(2)>)>"@ && b == " "@ && c == "2"@ {
        "<Surname(2)>"@
    } else {
        "<Split("@ + join_texts(list) + ")>"@
    }
}

/// A split macro: all arguments are taken; it needs at least three.
#[verifier::opaque]
pub open spec fn split_macro(args: Args, st: StateView) -> (StateView, Args, Out<()>)
    decreases args, 7nat,
{
    let (s1, a1, r) = take_value_list(args, st);
    match r {
        Out::Ret(list) => if list.len() < 3 {
            (s1, a1, Out::Abort)
        } else {
            (write_st(s1, split_text(list)), a1, Out::Ret(()))
        },
        _ => (s1, a1, fail_as(r)),
    }
}

/// The grand company rank names that a sheet reference by the player's
/// rank stands for.
pub open spec fn gc_rank_text(sheet: Seq<char>, row: Seq<char>, col: Seq<char>) -> Option<Seq<char>> {
    if (sheet == "GCRankLimsaMaleText"@ || sheet == "GCRankLimsaFemaleText"@) && row == "<Global(52)>"@ && col == "NameRank"@ {
        Some("[Limsa GC Rank]"@)
    } else if (sheet == "GCRankLimsaMaleText"@ || sheet == "GCRankLimsaFemaleText"@) && row == "<Global(52)>"@ && col == "Singular"@ {
        Some("[Limsa GC Title]"@)
    } else if (sheet == "GCRankGridaniaMaleText"@ || sheet == "GCRankGridaniaFemaleText"@) && row == "<Global(53)>"@ && col == "NameRank"@ {
        Some("[Gridania GC Rank]"@)
    } else if (sheet == "GCRankGridaniaMaleText"@ || sheet == "GCRankGridaniaFemaleText"@) && row == "<Global(53)>"@ && col == "Singular"@ {
        Some("[Gridania GC Title]"@)
    } else if (sheet == "GCRankUldahMaleText"@ || sheet == "GCRankUldahFemaleText"@) && row == "<Global(54)>"@ && col == "NameRank"@ {
        Some("[Ul'dah GC Rank]"@)
    } else if (sheet == "GCRankUldahMaleText"@ || sheet == "GCRankUldahFemaleText"@) && row == "<Global(54)>"@ && col == "Singular"@ {
        Some("[Ul'dah GC Title]"@)
    } else {
        None
    }
}

/// `<Sheet(name,row,col)>`
pub open spec fn sheet_tag(name: Seq<char>, row: Seq<char>, col: Seq<char>) -> Seq<char> {
    "<Sheet("@ + name + ","@ + row + ","@ + col + ")>"@
}

/// A sheet reference with exactly three arguments: the cell's text where
/// it is known, else the reference written out with the column's name.
pub open spec fn sheet_effect(list: Seq<Val>, st: StateView) -> StateView {
    let sheet = val_text(list[0]);
    let row = val_text(list[1]);
    let index = val_number(list[2]);
    let (lk1, found) = column_lookup(st.lookups, sheet, index);
    let col = match found {
        Some(name) => name,
        None => decimal(index as nat),
    };
    let (lk2, replace) = match parse_u32_spec(row) {
        Some(r) => cell_lookup(lk1, sheet, r, col),
        None => (lk1, gc_rank_text(sheet, row, col)),
    };
    let st2 = StateView { lookups: lk2, ..st };
    match replace {
        Some(text) => write_st(st2, text),
        None => if sheet == "InstanceContent"@ {
            write_st(st2, sheet_tag(sheet, row, decimal(index as nat)))
        } else {
            write_st(st2, sheet_tag(sheet, row, col))
        },
    }
}

#[verifier::opaque]
pub open spec fn sheet_macro(args: Args, st: StateView) -> (StateView, Args, Out<()>)
    decreases args, 7nat,
{
    let (s1, a1, r) = take_value_list(args, st);
    match r {
        Out::Ret(list) => if list.len() == 3 {
            (sheet_effect(list, s1), a1, Out::Ret(()))
        } else {
            (write_st(s1, "<Sheet("@ + join_texts(list) + ")>"@), a1, Out::Ret(()))
        },
        _ => (s1, a1, fail_as(r)),
    }
}

/// A string argument written as it is.
#[verifier::opaque]
pub open spec fn string_macro(args: Args, st: StateView) -> (StateView, Args, Out<()>)
    decreases args, 7nat,
{
    let (s1, a1, r) = take_str(args, st);
    match r {
        Out::Ret(s) => (write_st(s1, s), a1, Out::Ret(())),
        _ => (s1, a1, fail_as(r)),
    }
}

/// Any macro written out as `<tag(arg,arg,...)>`.
#[verifier::opaque]
pub open spec fn generic_macro(tag: Seq<char>, args: Args, st: StateView) -> (StateView, Args, Out<()>)
    decreases args, 6nat,
{
    let (s1, a1, r) = take_value_list(args, st);
    match r {
        Out::Ret(list) => (write_st(s1, single_tag(tag, join_texts(list))), a1, Out::Ret(())),
        _ => (s1, a1, fail_as(r)),
    }
}

/// The tag of a macro with an unassigned code.
pub open spec fn unknown_tag(code: u8) -> Seq<char> {
    "Macro_"@ + decimal(code as nat)
}

/// Rendering a macro of the given kind with its arguments.
#[verifier::opaque]
pub open spec fn run_macro(kind: MacroKind, args: Args, st: StateView) -> (StateView, Args, Out<()>)
    decreases args, 8nat,
{
    match kind {
        MacroKind::Bold => style_macro(Style::Bold, args, st),
        MacroKind::Italic => style_macro(Style::Italic, args, st),
        MacroKind::Edge => style_macro(Style::Outline, args, st),
        MacroKind::Shadow => style_macro(Style::Shadow, args, st),
        MacroKind::Color => color_macro(kind, args, st),
        MacroKind::EdgeColor => color_macro(kind, args, st),
        MacroKind::ShadowColor => color_macro(kind, args, st),
        MacroKind::ColorType => color_type_macro(ColorUsage::Foreground, "ColorType"@, args, st),
        MacroKind::EdgeColorType => color_type_macro(ColorUsage::Edge, "EdgeColorType"@, args, st),
        MacroKind::NonBreakingSpace => text_macro("&nbsp;"@, args, st),
        MacroKind::Hyphen => text_macro("-"@, args, st),
        MacroKind::SoftHyphen => text_macro("\u{00AD}"@, args, st),
        MacroKind::NewLine => text_macro("<br>"@, args, st),
        MacroKind::SetResetTime => reset_time_macro(args, st),
        MacroKind::SetTime => set_time_macro(args, st),
        MacroKind::If => if_macro("If"@, args, st),
        MacroKind::IfSelf => if_macro("IfSelf"@, args, st),
        MacroKind::IfPcGender => if_macro("IfPcGender"@, args, st),
        MacroKind::IfPcName => if_macro("IfPcName"@, args, st),
        MacroKind::Switch => switch_macro(args, st),
        MacroKind::JaNoun => generic_macro("JaNoun"@, args, st),
        MacroKind::EnNoun => generic_macro("EnNoun"@, args, st),
        MacroKind::DeNoun => generic_macro("DeNoun"@, args, st),
        MacroKind::FrNoun => generic_macro("FrNoun"@, args, st),
        MacroKind::ChNoun => generic_macro("ChNoun"@, args, st),
        MacroKind::Ruby => ruby_macro(args, st),
        MacroKind::Icon => generic_macro("Icon"@, args, st),
        MacroKind::Icon2 => generic_macro("Icon2"@, args, st),
        MacroKind::Caps => generic_macro("Caps"@, args, st),
        MacroKind::Head => generic_macro("Head"@, args, st),
        MacroKind::HeadAll => generic_macro("HeadAll"@, args, st),
        MacroKind::LowerHead => generic_macro("LowerHead"@, args, st),
        MacroKind::Lower => generic_macro("Lower"@, args, st),
        MacroKind::Split => split_macro(args, st),
        MacroKind::Kilo => generic_macro("Kilo"@, args, st),
        MacroKind::Digit => generic_macro("Digit"@, args, st),
        MacroKind::Float => generic_macro("Float"@, args, st),
        MacroKind::Key => generic_macro("Key"@, args, st),
        MacroKind::Sec => generic_macro("Sec"@, args, st),
        MacroKind::LevelPos => generic_macro("LevelPos"@, args, st),
        MacroKind::Ordinal => generic_macro("Ordinal"@, args, st),
        MacroKind::Fixed => generic_macro("Fixed"@, args, st),
        MacroKind::Sheet => sheet_macro(args, st),
        MacroKind::String => string_macro(args, st),
        MacroKind::Num => generic_macro("Num"@, args, st),
        MacroKind::PcName => generic_macro("PcName"@, args, st),
        MacroKind::Sound => generic_macro("Sound"@, args, st),
        MacroKind::Unknown(code) => if code == 66 {
            generic_macro("PlatformStr"@, args, st)
        } else {
            generic_macro(unknown_tag(code), args, st)
        },
        MacroKind::Other(_) => (st, args, Out::Ret(())),
    }
}

// ------------------------------------------------- results of exec functions

/// The outcome that an exec result stands for.
pub open spec fn out_value(r: Result<Value, SeStringError>) -> Out<Val> {
    match r {
        Ok(v) => Out::Ret(v@),
        Err(e) => Out::Fail(e),
    }
}

/// The outcome that an exec result stands for.
pub open spec fn out_opt_value(r: Result<Option<Value>, SeStringError>) -> Out<Option<Val>> {
    match r {
        Ok(Some(v)) => Out::Ret(Some(v@)),
        Ok(None) => Out::Ret(None),
        Err(e) => Out::Fail(e),
    }
}

/// The outcome that an exec result stands for.
pub open spec fn out_str(r: Result<String, SeStringError>) -> Out<Seq<char>> {
    match r {
        Ok(s) => Out::Ret(s@),
        Err(e) => Out::Fail(e),
    }
}

/// The outcome that an exec result stands for.
pub open spec fn out_u32(r: Result<u32, SeStringError>) -> Out<u32> {
    match r {
        Ok(n) => Out::Ret(n),
        Err(e) => Out::Fail(e),
    }
}

/// The outcome that an exec result stands for.
pub open spec fn out_opt_u32(r: Result<Option<u32>, SeStringError>) -> Out<Option<u32>> {
    match r {
        Ok(n) => Out::Ret(n),
        Err(e) => Out::Fail(e),
    }
}

/// The outcome that an exec result stands for.
pub open spec fn out_list(r: Result<Vec<Value>, SeStringError>) -> Out<Seq<Val>> {
    match r {
        Ok(vs) => Out::Ret(vals(vs@)),
        Err(e) => Out::Fail(e),
    }
}

/// The outcome that an exec result stands for.
pub open spec fn out_unit(r: Result<(), SeStringError>) -> Out<()> {
    match r {
        Ok(_) => Out::Ret(()),
        Err(e) => Out::Fail(e),
    }
}

/// An exec step that took arguments ended as the stated step does.
pub open spec fn ends_as<T>(step: (StateView, Args, Out<T>), st: StateView, args: Args, out: Out<T>) -> bool {
    st == step.0 && args == step.1 && out == step.2
}

// ------------------------------------------------------------------ lemmas

/// A taking step that returned consumed exactly the first argument.
pub proof fn lemma_take_consumes_one(args: Args, st: StateView)
    ensures
        take_value(args, st).2 is Ret ==> args.len() > 0 && take_value(args, st).1 == args.drop_first(),
        take_str(args, st).2 is Ret ==> args.len() > 0 && take_str(args, st).1 == args.drop_first(),
        take_u32(args, st).2 is Ret ==> args.len() > 0 && take_u32(args, st).1 == args.drop_first(),
{
    reveal(take_value);
    reveal(take_str);
    reveal(take_u32);
}

/// Taking all arguments is taking one, then taking the rest.
pub proof fn lemma_take_list_step(args: Args, st: StateView)
    ensures
        ({
            let (s1, a1, r1) = try_take_value(args, st);
            match r1 {
                Out::Ret(Some(v)) => {
                    &&& args.len() > 0
                    &&& a1 == args.drop_first()
                    &&& take_value_list(args, st) == ({
                        let (s2, a2, r2) = take_value_list(a1, s1);
                        (s2, a2, match r2 {
                            Out::Ret(vs) => Out::Ret(seq![v].add(vs)),
                            _ => r2,
                        })
                    })
                },
                Out::Ret(None) => args.len() == 0 && s1 == st && a1 == args
                    && take_value_list(args, st) == (st, args, Out::<Seq<Val>>::Ret(Seq::empty())),
                _ => take_value_list(args, st) == (s1, a1, fail_as::<Option<Val>, Seq<Val>>(r1)),
            }
        }),
{
    reveal(try_take_value);
    reveal(take_value_list);
}

} // verus!
