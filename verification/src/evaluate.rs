//! Evaluating argument expressions.

use vstd::prelude::*;
use crate::answers::lemma_steps_keep_halted;
use crate::convert_value::{into_compare, into_global_param, into_local_param, into_time, TimeField};
use crate::formatter::format_sestring;
use crate::lookup::Lookups;
use crate::operator::{EQ, GE, GT, LE, LT, NE};
use crate::semantics::{eval, eval_sestring, format_sestring as format_sestring_spec, out_value};
use crate::sestring::{Expression, SeString};
use crate::state::CGWState;
use crate::text::push_hex2;
use crate::value::{SeStringError, Value};
use crate::writer::CGWikiWriter;

verus! {

/// Evaluates an expression. Strings nested in it are formatted on their
/// own, sharing only the clock and the lookup table; the state changes in
/// nothing but that table.
pub fn evaluate_expression(expression: Expression, state: &mut CGWState) -> (r: Result<Value, SeStringError>)
    ensures
        !(eval(expression, old(state)@).1 is Abort) ==> {
            &&& final(state)@ == eval(expression, old(state)@).0
            &&& out_value(r) == eval(expression, old(state)@).1
        },
        eval(expression, old(state)@).1 is Abort ==> final(state)@.halted && r is Err,
    decreases expression, 1nat,
{
    proof {
        reveal(eval);
        reveal(eval_sestring);
    }
    let value = match expression {
        Expression::U32(value) => Value::U32(value),
        Expression::SeString(value) => {
            evaluate_sestring(value, state)?
        },
        Expression::Millisecond => into_time(TimeField::Millisecond, state)?,
        Expression::Second => into_time(TimeField::Second, state)?,
        Expression::Minute => into_time(TimeField::Minute, state)?,
        Expression::Hour => into_time(TimeField::Hour, state)?,
        Expression::Day => into_time(TimeField::Day, state)?,
        Expression::Weekday => into_time(TimeField::Weekday, state)?,
        Expression::Month => into_time(TimeField::Month, state)?,
        Expression::Year => into_time(TimeField::Year, state)?,
        Expression::StackColor => Value::String(String::from_str("<StackColor>")),
        Expression::GlobalNumber(inner) => into_global_param(evaluate_expression(*inner, state)?)?,
        Expression::GlobalString(inner) => into_global_param(evaluate_expression(*inner, state)?)?,
        Expression::LocalNumber(inner) => into_local_param(evaluate_expression(*inner, state)?)?,
        Expression::LocalString(inner) => into_local_param(evaluate_expression(*inner, state)?)?,
        Expression::Ge(left, right) => {
            let l = evaluate_expression(*left, state)?;
            let r = evaluate_expression(*right, state)?;
            into_compare(GE, l, r)?
        },
        Expression::Gt(left, right) => {
            let l = evaluate_expression(*left, state)?;
            let r = evaluate_expression(*right, state)?;
            into_compare(GT, l, r)?
        },
        Expression::Le(left, right) => {
            let l = evaluate_expression(*left, state)?;
            let r = evaluate_expression(*right, state)?;
            into_compare(LE, l, r)?
        },
        Expression::Lt(left, right) => {
            let l = evaluate_expression(*left, state)?;
            let r = evaluate_expression(*right, state)?;
            into_compare(LT, l, r)?
        },
        Expression::Eq(left, right) => {
            let l = evaluate_expression(*left, state)?;
            let r = evaluate_expression(*right, state)?;
            into_compare(EQ, l, r)?
        },
        Expression::Ne(left, right) => {
            let l = evaluate_expression(*left, state)?;
            let r = evaluate_expression(*right, state)?;
            into_compare(NE, l, r)?
        },
        Expression::Unknown(unk) => {
            let mut s = String::from_str("M#");
            push_hex2(&mut s, unk);
            Value::String(s)
        },
        Expression::Other => Value::Unknown,
    };
    Ok(value)
}

/// Formats a nested string with a fresh writer and the outer clock, and
/// gives its text with all styles reset.
fn evaluate_sestring(sestring: SeString, state: &mut CGWState) -> (r: Result<Value, SeStringError>)
    ensures
        !(eval_sestring(sestring, old(state)@).1 is Abort) ==> {
            &&& final(state)@ == eval_sestring(sestring, old(state)@).0
            &&& out_value(r) == eval_sestring(sestring, old(state)@).1
        },
        eval_sestring(sestring, old(state)@).1 is Abort ==> final(state)@.halted && r is Err,
    decreases sestring, 3nat,
{
    proof {
        reveal(eval_sestring);
        reveal(format_sestring_spec);
    }
    let writer = CGWikiWriter::new();
    let mut lookups = Lookups::new();
    std::mem::swap(&mut lookups, &mut state.lookups);
    let mut temp_state = CGWState::new(writer, lookups);
    temp_state.time = state.time;
    proof {
        lemma_steps_keep_halted(sestring, arbitrary(), temp_state@);
    }
    let res = format_sestring(sestring, &mut temp_state);
    std::mem::swap(&mut temp_state.lookups, &mut state.lookups);
    match res {
        Ok(()) => {
            temp_state.writer.reset_style();
            Ok(Value::String(temp_state.writer.buffer))
        },
        Err(e) => {
            if temp_state.halted {
                state.halted = true;
            }
            Err(e)
        },
    }
}

} // verus!
