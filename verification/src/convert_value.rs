//! Conversions of evaluated values: clock readings, parameter references,
//! comparisons and argument lists.

use vstd::prelude::*;
use crate::clock::{
    utc_calendar_year, utc_day, utc_day_of_month, utc_hour, utc_millisecond, utc_minute,
    utc_month, utc_month_number, utc_second, utc_weekday_number_from_sunday, utc_year,
    hour_of, weekday_from_sunday,
};
use crate::operator::{EQ, GE, GT, LE, LT, NE};
use crate::state::CGWState;
use crate::text::{decimal, push_decimal, str_eq};
use crate::value::{SeStringError, Val, Value, val_text};

verus! {

/// A reading of the clock.
#[derive(Debug, PartialEq, Eq, Structural, Clone, Copy)]
pub enum TimeField {
    Millisecond,
    Second,
    Minute,
    Hour,
    Day,
    Weekday,
    Month,
    Year,
}

/// The reading `field` of the UTC timestamp `ts`.
pub open spec fn time_field_value(field: TimeField, ts: u32) -> u32 {
    match field {
        TimeField::Millisecond => 0,
        TimeField::Second => ts % 60,
        TimeField::Minute => (ts / 60) % 60,
        TimeField::Hour => hour_of(ts as int) as u32,
        TimeField::Day => utc_day_of_month(ts as int) as u32,
        TimeField::Weekday => (weekday_from_sunday(ts as int) + 1) as u32,
        TimeField::Month => utc_month_number(ts as int) as u32,
        TimeField::Year => utc_calendar_year(ts as int) as u32,
    }
}

/// Reads `field` from the state's clock.
pub fn into_time(field: TimeField, state: &CGWState) -> (r: Result<Value, SeStringError>)
    ensures
        r matches Ok(v) && v@ == Val::U32(time_field_value(field, state.time)),
{
    let ts = state.time;
    let n: u32 = match field {
        TimeField::Millisecond => utc_millisecond(ts) as u32,
        TimeField::Second => utc_second(ts) as u32,
        TimeField::Minute => utc_minute(ts) as u32,
        TimeField::Hour => utc_hour(ts) as u32,
        TimeField::Day => utc_day(ts) as u32,
        TimeField::Weekday => utc_weekday_number_from_sunday(ts) as u32,
        TimeField::Month => utc_month(ts) as u32,
        TimeField::Year => utc_year(ts) as u32,
    };
    Ok(Value::U32(n))
}

/// A reference to a global parameter, as rendered.
pub open spec fn global_param_text(v: Val) -> Seq<char> {
    match v {
        Val::U32(u) => "<Global("@ + decimal(u as nat) + ")>"@,
        Val::Text(s) => "<Global_S(\""@ + s + "\")>"@,
        Val::Unknown => "<Global_U(\"\")>"@,
    }
}

/// A reference to a local parameter, as rendered.
pub open spec fn local_param_text(v: Val) -> Seq<char> {
    match v {
        Val::U32(u) => "<Local("@ + decimal(u as nat) + ")>"@,
        Val::Text(s) => "<Local_S(\""@ + s + "\")>"@,
        Val::Unknown => "<Local_U(\"\")>"@,
    }
}

/// Renders a global parameter reference.
pub fn into_global_param(value: Value) -> (r: Result<Value, SeStringError>)
    ensures
        r matches Ok(v) && v@ == Val::Text(global_param_text(value@)),
{
    let mut s = String::new();
    match value {
        Value::U32(u) => {
            s.append("<Global(");
            push_decimal(&mut s, u as u64);
            s.append(")>");
        },
        Value::String(t) => {
            s.append("<Global_S(\"");
            s.append(t.as_str());
            s.append("\")>");
        },
        Value::Unknown => {
            s.append("<Global_U(\"\")>");
        },
    }
    Ok(Value::String(s))
}

/// Renders a local parameter reference.
pub fn into_local_param(value: Value) -> (r: Result<Value, SeStringError>)
    ensures
        r matches Ok(v) && v@ == Val::Text(local_param_text(value@)),
{
    let mut s = String::new();
    match value {
        Value::U32(u) => {
            s.append("<Local(");
            push_decimal(&mut s, u as u64);
            s.append(")>");
        },
        Value::String(t) => {
            s.append("<Local_S(\"");
            s.append(t.as_str());
            s.append("\")>");
        },
        Value::Unknown => {
            s.append("<Local_U(\"\")>");
        },
    }
    Ok(Value::String(s))
}

/// `a op b` for the named operator; an unknown name compares false.
pub open spec fn compares(op: Seq<char>, a: u32, b: u32) -> bool {
    if op == GE@ {
        a >= b
    } else if op == GT@ {
        a > b
    } else if op == LE@ {
        a <= b
    } else if op == LT@ {
        a < b
    } else if op == EQ@ {
        a == b
    } else if op == NE@ {
        a != b
    } else {
        false
    }
}

/// A boolean as rendered (`to_string`).
pub open spec fn bool_text(b: bool) -> Seq<char> {
    if b { "true"@ } else { "false"@ }
}

/// A comparison: decided where both sides are numbers, else written out as
/// `op(left,right)`.
pub open spec fn compare_value(op: Seq<char>, left: Val, right: Val) -> Val {
    match (left, right) {
        (Val::U32(a), Val::U32(b)) => Val::Text(bool_text(compares(op, a, b))),
        _ => Val::Text(op + "("@ + val_text(left) + ","@ + val_text(right) + ")"@),
    }
}

/// Compares two values with the named operator.
pub fn into_compare(comparator_str: &str, left: Value, right: Value) -> (r: Result<Value, SeStringError>)
    ensures
        r matches Ok(v) && v@ == compare_value(comparator_str@, left@, right@),
{
    if let Value::U32(left_num) = left {
        if let Value::U32(right_num) = right {
            let res = if str_eq(comparator_str, GE) {
                left_num >= right_num
            } else if str_eq(comparator_str, GT) {
                left_num > right_num
            } else if str_eq(comparator_str, LE) {
                left_num <= right_num
            } else if str_eq(comparator_str, LT) {
                left_num < right_num
            } else if str_eq(comparator_str, EQ) {
                left_num == right_num
            } else if str_eq(comparator_str, NE) {
                left_num != right_num
            } else {
                false
            };
            let text = if res { String::from_str("true") } else { String::from_str("false") };
            return Ok(Value::String(text));
        }
    }
    let left_str = left.to_text();
    let right_str = right.to_text();
    let mut s = String::from_str(comparator_str);
    s.append("(");
    s.append(left_str.as_str());
    s.append(",");
    s.append(right_str.as_str());
    s.append(")");
    Ok(Value::String(s))
}

/// The texts of values joined with commas.
pub open spec fn join_texts(vs: Seq<Val>) -> Seq<char>
    decreases vs.len(),
{
    if vs.len() == 0 {
        Seq::empty()
    } else if vs.len() == 1 {
        val_text(vs[0])
    } else {
        join_texts(vs.drop_last()) + ","@ + val_text(vs.last())
    }
}

/// The views of a list of values.
pub open spec fn vals(vs: Seq<Value>) -> Seq<Val> {
    vs.map_values(|v: Value| v@)
}

/// The texts of values joined with commas.
pub fn list_to_str(arg_list: &[Value]) -> (r: Result<String, SeStringError>)
    ensures
        r matches Ok(s) && s@ == join_texts(vals(arg_list@)),
{
    let mut s = String::new();
    let mut i: usize = 0;
    while i < arg_list.len()
        invariant
            i <= arg_list@.len(),
            s@ == join_texts(vals(arg_list@.take(i as int))),
        decreases arg_list@.len() - i,
    {
        if i > 0 {
            s.append(",");
        }
        let t = arg_list[i].to_text();
        s.append(t.as_str());
        proof {
            let vs = vals(arg_list@.take(i + 1));
            assert(vs.drop_last() =~= vals(arg_list@.take(i as int)));
            assert(vs.last() == arg_list@[i as int]@);
        }
        i = i + 1;
    }
    assert(arg_list@.take(i as int) =~= arg_list@);
    Ok(s)
}

} // verus!
