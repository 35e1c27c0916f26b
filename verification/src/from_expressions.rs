//! Taking macro arguments one at a time and evaluating them.

use vstd::prelude::*;
use crate::evaluate::evaluate_expression;
use crate::semantics::{eval, 
    ends_as, out_list, out_opt_u32, out_opt_value, out_str, out_u32, out_value, take_str as take_str_spec,
    take_u32 as take_u32_spec, take_value as take_value_spec, take_value_list as take_value_list_spec,
    try_take_u32 as try_take_u32_spec, try_take_value as try_take_value_spec, Out, Args, lemma_take_list_step,
};
use crate::sestring::Expressions;
use crate::state::{CGWState, StateView};
use crate::convert_value::vals;
use crate::value::Val;
use crate::text::decimal_string;
use crate::value::{SeStringError, Value};
use crate::write::Write;

verus! {

/// Takes the next argument and evaluates it; a missing argument is an error.
pub fn take_value(arguments: &mut Expressions, state: &mut CGWState) -> (r: Result<Value, SeStringError>)
    ensures
        !(take_value_spec(old(arguments).items@, old(state)@).2 is Abort) ==> ends_as(take_value_spec(old(arguments).items@, old(state)@), final(state)@, final(arguments).items@, out_value(r)),
        take_value_spec(old(arguments).items@, old(state)@).2 is Abort ==> final(state)@.halted && r is Err,
    decreases old(arguments).items@, 3nat,
{
    proof {
        reveal(take_value_spec);
        reveal(eval);
    }
    let next_arg = arguments.next();
    match next_arg {
        None => Err(SeStringError::InsufficientArguments),
        Some(Err(e)) => Err(e),
        Some(Ok(expr)) => evaluate_expression(expr, state),
    }
}

/// Takes the next argument, if there is one, and evaluates it.
pub fn try_take_value(arguments: &mut Expressions, state: &mut CGWState) -> (r: Result<Option<Value>, SeStringError>)
    ensures
        !(try_take_value_spec(old(arguments).items@, old(state)@).2 is Abort) ==> ends_as(try_take_value_spec(old(arguments).items@, old(state)@), final(state)@, final(arguments).items@, out_opt_value(r)),
        try_take_value_spec(old(arguments).items@, old(state)@).2 is Abort ==> final(state)@.halted && r is Err,
    decreases old(arguments).items@, 3nat,
{
    proof {
        reveal(try_take_value_spec);
        reveal(eval);
    }
    let next_arg = arguments.next();
    match next_arg {
        Some(Ok(val)) => {
            let value_wrap = evaluate_expression(val, state)?;
            Ok(Some(value_wrap))
        },
        Some(Err(e)) => Err(e),
        None => Ok(None),
    }
}

/// Takes the next argument as a string; another kind of value is an error.
pub fn take_str(arguments: &mut Expressions, state: &mut CGWState) -> (r: Result<String, SeStringError>)
    ensures
        !(take_str_spec(old(arguments).items@, old(state)@).2 is Abort) ==> ends_as(take_str_spec(old(arguments).items@, old(state)@), final(state)@, final(arguments).items@, out_str(r)),
        take_str_spec(old(arguments).items@, old(state)@).2 is Abort ==> final(state)@.halted && r is Err,
    decreases old(arguments).items@, 4nat,
{
    proof {
        reveal(take_str_spec);
        reveal(take_value_spec);
        reveal(eval);
    }
    let next_arg = arguments.next();
    match next_arg {
        None => Err(SeStringError::InsufficientArguments),
        Some(Err(e)) => Err(e),
        Some(Ok(expr)) => {
            let value_wrap = evaluate_expression(expr, state);
            match value_wrap {
                Ok(value) => match value {
                    Value::String(s) => Ok(s),
                    Value::U32(_u) => Err(SeStringError::InsufficientArguments),
                    Value::Unknown => Err(SeStringError::InsufficientArguments),
                },
                Err(e) => Err(e),
            }
        },
    }
}

/// Takes the next argument as a number; another kind of value is an error.
pub fn take_u32(arguments: &mut Expressions, state: &mut CGWState) -> (r: Result<u32, SeStringError>)
    ensures
        !(take_u32_spec(old(arguments).items@, old(state)@).2 is Abort) ==> ends_as(take_u32_spec(old(arguments).items@, old(state)@), final(state)@, final(arguments).items@, out_u32(r)),
        take_u32_spec(old(arguments).items@, old(state)@).2 is Abort ==> final(state)@.halted && r is Err,
    decreases old(arguments).items@, 4nat,
{
    proof {
        reveal(take_u32_spec);
        reveal(take_value_spec);
        reveal(eval);
    }
    let next_arg = arguments.next();
    match next_arg {
        None => Err(SeStringError::InsufficientArguments),
        Some(Err(e)) => Err(e),
        Some(Ok(expr)) => {
            let value_wrap = evaluate_expression(expr, state);
            match value_wrap {
                Ok(value) => match value {
                    Value::String(_s) => Err(SeStringError::InsufficientArguments),
                    Value::U32(u) => Ok(u),
                    Value::Unknown => Err(SeStringError::InsufficientArguments),
                },
                Err(e) => Err(e),
            }
        },
    }
}

/// Takes the next argument, if there is one, as a number.
pub fn try_take_u32(arguments: &mut Expressions, state: &mut CGWState) -> (r: Result<Option<u32>, SeStringError>)
    ensures
        !(try_take_u32_spec(old(arguments).items@, old(state)@).2 is Abort) ==> ends_as(try_take_u32_spec(old(arguments).items@, old(state)@), final(state)@, final(arguments).items@, out_opt_u32(r)),
        try_take_u32_spec(old(arguments).items@, old(state)@).2 is Abort ==> final(state)@.halted && r is Err,
    decreases old(arguments).items@, 4nat,
{
    proof {
        reveal(try_take_u32_spec);
        reveal(try_take_value_spec);
        reveal(eval);
    }
    let next_arg = arguments.next();
    match next_arg {
        Some(Ok(val)) => {
            let value_wrap = evaluate_expression(val, state);
            match value_wrap {
                Ok(value) => match value {
                    Value::String(_) => Err(SeStringError::InsufficientArguments),
                    Value::U32(u) => Ok(Some(u)),
                    Value::Unknown => Err(SeStringError::InsufficientArguments),
                },
                Err(e) => Err(e),
            }
        },
        Some(Err(e)) => Err(e),
        None => Ok(None),
    }
}

/// Writes a value: a string as itself, a number in decimal, an unknown
/// value as `<Unknown>`.
fn _write_val(next_arg: Value, state: &mut CGWState) -> (r: Result<(), SeStringError>)
    ensures
        r is Ok,
        final(state)@ == (crate::state::StateView {
            writer: crate::writer::written(old(state)@.writer, match next_arg@ {
                crate::value::Val::Text(s) => s,
                crate::value::Val::U32(u) => crate::text::decimal(u as nat),
                crate::value::Val::Unknown => "<Unknown>"@,
            }),
            ..old(state)@
        }),
{
    match next_arg {
        Value::String(s) => state.writer.write_str(s.as_str())?,
        Value::U32(u) => state.writer.write_str(decimal_string(u as u64).as_str())?,
        Value::Unknown => state.writer.write_str("<Unknown>")?,
    }
    Ok(())
}

/// Takes and evaluates all remaining arguments, in order.
pub fn take_value_list(arguments: &mut Expressions, state: &mut CGWState) -> (r: Result<Vec<Value>, SeStringError>)
    ensures
        !(take_value_list_spec(old(arguments).items@, old(state)@).2 is Abort) ==> ends_as(take_value_list_spec(old(arguments).items@, old(state)@), final(state)@, final(arguments).items@, out_list(r)),
        take_value_list_spec(old(arguments).items@, old(state)@).2 is Abort ==> final(state)@.halted && r is Err,
    decreases old(arguments).items@, 4nat,
{
    let ghost args0 = arguments.items@;
    let ghost st0 = state@;
    let mut arg_list: Vec<Value> = Vec::new();
    assert(args0.subrange(0, args0.len() as int) =~= args0);
    assert(vals(arg_list@) + take_value_list_spec(args0, st0).2->Ret_0 =~= take_value_list_spec(args0, st0).2->Ret_0);
    loop
        invariant
            args0 == old(arguments).items@,
            st0 == old(state)@,
            arguments.items@.len() <= args0.len(),
            arguments.items@ == args0.subrange(args0.len() - arguments.items@.len(), args0.len() as int),
            take_value_list_spec(args0, st0) == continued(vals(arg_list@), take_value_list_spec(arguments.items@, state@)),
        decreases arguments.items@.len(),
    {
        let ghost args1 = arguments.items@;
        let ghost st1 = state@;
        proof {
            lemma_take_list_step(args1, st1);
            if args1.len() < args0.len() {
                assert(decreases_to!(args0 => args1));
            } else {
                assert(args1 =~= args0);
            }
        }
        let next = try_take_value(arguments, state);
        match next {
            Err(e) => {
                assert(!(try_take_value_spec(args1, st1).2 is Abort) ==> try_take_value_spec(args1, st1).2
                    == Out::<Option<Val>>::Fail(e));
                return Err(e);
            },
            Ok(Some(arg_val)) => {
                proof {
                    assert(vals(arg_list@.push(arg_val)) =~= vals(arg_list@).push(arg_val@));
                    let rest = take_value_list_spec(arguments.items@, state@).2;
                    if rest is Ret {
                        assert(vals(arg_list@) + (seq![arg_val@] + rest->Ret_0) =~= vals(arg_list@).push(arg_val@) + rest->Ret_0);
                    }
                }
                arg_list.push(arg_val);
                proof {
                    assert(arguments.items@ =~= args0.subrange(args0.len() - arguments.items@.len(), args0.len() as int));
                }
            },
            Ok(None) => {
                assert(vals(arg_list@) + Seq::<Val>::empty() =~= vals(arg_list@));
                return Ok(arg_list);
            },
        }
    }
}

/// The outcome of taking the remaining arguments, after `done` were taken.
pub open spec fn continued(done: Seq<Val>, step: (StateView, Args, Out<Seq<Val>>)) -> (StateView, Args, Out<Seq<Val>>) {
    (step.0, step.1, match step.2 {
        Out::Ret(vs) => Out::Ret(done + vs),
        _ => step.2,
    })
}

} // verus!
