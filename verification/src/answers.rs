//! Formatting never changes the answers of the lookup table: every step,
//! from evaluating one expression to formatting a whole string, keeps the
//! answers and only adds questions after those already noted.

use vstd::prelude::*;
use crate::formatter::format_top;
use crate::lookup::{answers_kept, law_lookup_keeps_answers, LookupsView};
use crate::semantics::{
    color_macro, color_type_macro, comparison, eval, eval_sestring, format_macro, format_payloads,
    format_sestring, generic_macro, if_effect, if_macro, nested_state, reset_time_macro, ruby_macro,
    run_macro, set_time_macro, sheet_effect, sheet_macro, split_macro, string_macro, style_macro,
    switch_macro, take_str, take_u32, take_value, take_value_list, try_take_u32, try_take_value,
    unknown_tag, write_st, Args, Comparison, Out,
};
use crate::sestring::{Expression, MacroKind, MacroPayload, Payload, SeString};
use crate::state::StateView;
use crate::text::parse_u32_spec;
use crate::value::{val_number, val_text, SeStringError, Val};
use crate::write::{ColorUsage, Style};

verus! {

/// A step keeps the answers of the lookup table, adds questions only after
/// those already noted, and leaves the halted flag as it was.
pub open spec fn kept(a: StateView, b: StateView) -> bool {
    keeps(a.lookups, a.halted, b.lookups, b.halted)
}

/// The parts of a state that `kept` compares.
#[verifier::opaque]
pub open spec fn keeps(l1: LookupsView, h1: bool, l2: LookupsView, h2: bool) -> bool {
    answers_kept(l1, l2) && h2 == h1
}

/// Keeping answers is transitive.
proof fn lemma_kept_trans(a: StateView, b: StateView, c: StateView)
    requires
        kept(a, b),
        kept(b, c),
    ensures
        kept(a, c),
{
    reveal(keeps);
    reveal(answers_kept);
    assert forall|i: int| 0 <= i < a.lookups.missing.len() implies #[trigger] c.lookups.missing[i]
        == a.lookups.missing[i] by {
        assert(c.lookups.missing[i] == b.lookups.missing[i]);
    }
}

proof fn lemma_kept_refl(a: StateView)
    ensures
        kept(a, a),
{
    reveal(keeps);
    reveal(answers_kept);
}

proof fn lemma_eval_keeps(e: Expression, st: StateView)
    ensures
        kept(st, eval(e, st).0),
    decreases e, 1nat,
{
    reveal(eval);
    reveal(eval_sestring);
    lemma_kept_refl(st);
    match e {
        Expression::SeString(s) => lemma_eval_sestring_keeps(s, st),
        Expression::GlobalNumber(i) => lemma_eval_keeps(*i, st),
        Expression::GlobalString(i) => lemma_eval_keeps(*i, st),
        Expression::LocalNumber(i) => lemma_eval_keeps(*i, st),
        Expression::LocalString(i) => lemma_eval_keeps(*i, st),
        Expression::Ge(l, r) => {
            lemma_eval_keeps(*l, st);
            lemma_eval_keeps(*r, eval(*l, st).0);
            lemma_kept_trans(st, eval(*l, st).0, eval(*r, eval(*l, st).0).0);
        },
        Expression::Gt(l, r) => {
            lemma_eval_keeps(*l, st);
            lemma_eval_keeps(*r, eval(*l, st).0);
            lemma_kept_trans(st, eval(*l, st).0, eval(*r, eval(*l, st).0).0);
        },
        Expression::Le(l, r) => {
            lemma_eval_keeps(*l, st);
            lemma_eval_keeps(*r, eval(*l, st).0);
            lemma_kept_trans(st, eval(*l, st).0, eval(*r, eval(*l, st).0).0);
        },
        Expression::Lt(l, r) => {
            lemma_eval_keeps(*l, st);
            lemma_eval_keeps(*r, eval(*l, st).0);
            lemma_kept_trans(st, eval(*l, st).0, eval(*r, eval(*l, st).0).0);
        },
        Expression::Eq(l, r) => {
            lemma_eval_keeps(*l, st);
            lemma_eval_keeps(*r, eval(*l, st).0);
            lemma_kept_trans(st, eval(*l, st).0, eval(*r, eval(*l, st).0).0);
        },
        Expression::Ne(l, r) => {
            lemma_eval_keeps(*l, st);
            lemma_eval_keeps(*r, eval(*l, st).0);
            lemma_kept_trans(st, eval(*l, st).0, eval(*r, eval(*l, st).0).0);
        },
        _ => {},
    }
}

proof fn lemma_eval_sestring_keeps(s: SeString, st: StateView)
    ensures
        kept(st, eval_sestring(s, st).0),
    decreases s, 3nat,
{
    reveal(eval_sestring);
    reveal(format_sestring);
    lemma_kept_refl(st);
    lemma_format_sestring_keeps(s, nested_state(st));
    reveal(keeps);
}

proof fn lemma_format_sestring_keeps(s: SeString, st: StateView)
    ensures
        kept(st, format_sestring(s, st).0),
    decreases s, 2nat,
{
    reveal(format_sestring);
    reveal(format_payloads);
    lemma_kept_refl(st);
    lemma_format_payloads_keeps(s.payloads@, st);
}

proof fn lemma_format_payloads_keeps(ps: Seq<Result<Payload, SeStringError>>, st: StateView)
    ensures
        kept(st, format_payloads(ps, st).0),
    decreases ps, 1nat,
{
    reveal(format_payloads);
    reveal(format_macro);
    lemma_kept_refl(st);
    if ps.len() > 0 {
        match ps[0] {
            Ok(Payload::Text(Ok(t))) => {
                let s1 = write_st(st, t@);
                lemma_format_payloads_keeps(ps.drop_first(), s1);
                lemma_kept_trans(st, s1, format_payloads(ps.drop_first(), s1).0);
            },
            Ok(Payload::Macro(m)) => {
                lemma_format_macro_keeps(m, st);
                let (s1, r) = format_macro(m, st);
                if r is Ret {
                    lemma_format_payloads_keeps(ps.drop_first(), s1);
                    lemma_kept_trans(st, s1, format_payloads(ps.drop_first(), s1).0);
                }
            },
            _ => {},
        }
    }
}

proof fn lemma_format_macro_keeps(m: MacroPayload, st: StateView)
    ensures
        kept(st, format_macro(m, st).0),
    decreases m, 9nat,
{
    reveal(format_macro);
    reveal(run_macro);
    lemma_kept_refl(st);
    lemma_run_macro_keeps(m.kind, m.expressions@, st);
}

proof fn lemma_take_value_keeps(args: Args, st: StateView)
    ensures
        kept(st, take_value(args, st).0),
    decreases args, 3nat,
{
    reveal(take_value);
    reveal(eval);
    lemma_kept_refl(st);
    if args.len() > 0 {
        if let Ok(x) = args[0] {
            lemma_eval_keeps(x, st);
        }
    }
}

proof fn lemma_try_take_value_keeps(args: Args, st: StateView)
    ensures
        kept(st, try_take_value(args, st).0),
    decreases args, 3nat,
{
    reveal(try_take_value);
    reveal(eval);
    lemma_kept_refl(st);
    if args.len() > 0 {
        if let Ok(x) = args[0] {
            lemma_eval_keeps(x, st);
        }
    }
}

proof fn lemma_take_str_keeps(args: Args, st: StateView)
    ensures
        kept(st, take_str(args, st).0),
    decreases args, 4nat,
{
    reveal(take_str);
    reveal(take_value);
    lemma_kept_refl(st);
    lemma_take_value_keeps(args, st);
}

proof fn lemma_take_u32_keeps(args: Args, st: StateView)
    ensures
        kept(st, take_u32(args, st).0),
    decreases args, 4nat,
{
    reveal(take_u32);
    reveal(take_value);
    lemma_kept_refl(st);
    lemma_take_value_keeps(args, st);
}

proof fn lemma_try_take_u32_keeps(args: Args, st: StateView)
    ensures
        kept(st, try_take_u32(args, st).0),
    decreases args, 4nat,
{
    reveal(try_take_u32);
    reveal(try_take_value);
    lemma_kept_refl(st);
    lemma_try_take_value_keeps(args, st);
}

proof fn lemma_take_value_list_keeps(args: Args, st: StateView)
    ensures
        kept(st, take_value_list(args, st).0),
    decreases args, 4nat,
{
    reveal(take_value_list);
    reveal(eval);
    lemma_kept_refl(st);
    if args.len() > 0 {
        if let Ok(x) = args[0] {
            lemma_eval_keeps(x, st);
            let (s1, r) = eval(x, st);
            if r is Ret {
                lemma_take_value_list_keeps(args.drop_first(), s1);
                lemma_kept_trans(st, s1, take_value_list(args.drop_first(), s1).0);
            }
        }
    }
}

proof fn lemma_style_macro_keeps(style: Style, args: Args, st: StateView)
    ensures
        kept(st, style_macro(style, args, st).0),
    decreases args, 7nat,
{
    reveal(style_macro);
    reveal(take_u32);
    lemma_kept_refl(st);
    lemma_take_u32_keeps(args, st);
}

proof fn lemma_color_macro_keeps(kind: MacroKind, args: Args, st: StateView)
    ensures
        kept(st, color_macro(kind, args, st).0),
    decreases args, 7nat,
{
    reveal(color_macro);
    reveal(take_value);
    lemma_kept_refl(st);
    lemma_take_value_keeps(args, st);
}

proof fn lemma_color_type_macro_keeps(usage: ColorUsage, tag: Seq<char>, args: Args, st: StateView)
    ensures
        kept(st, color_type_macro(usage, tag, args, st).0),
    decreases args, 7nat,
{
    reveal(color_type_macro);
    reveal(take_value);
    lemma_kept_refl(st);
    lemma_take_value_keeps(args, st);
}

proof fn lemma_reset_time_macro_keeps(args: Args, st: StateView)
    ensures
        kept(st, reset_time_macro(args, st).0),
    decreases args, 7nat,
{
    reveal(reset_time_macro);
    reveal(take_u32);
    reveal(try_take_u32);
    lemma_kept_refl(st);
    lemma_take_u32_keeps(args, st);
    let (s1, a1, r1) = take_u32(args, st);
    if r1 is Ret && args.len() > 0 {
        lemma_try_take_u32_keeps(args.drop_first(), s1);
        lemma_kept_trans(st, s1, try_take_u32(args.drop_first(), s1).0);
    }
}

proof fn lemma_set_time_macro_keeps(args: Args, st: StateView)
    ensures
        kept(st, set_time_macro(args, st).0),
    decreases args, 7nat,
{
    reveal(set_time_macro);
    reveal(take_value);
    lemma_kept_refl(st);
    lemma_take_value_keeps(args, st);
}

/// The effect of a conditional keeps the answers.
proof fn lemma_if_effect_keeps(if_type: Seq<char>, cond: Seq<char>, yes: Seq<char>, no: Seq<char>, st: StateView)
    ensures
        kept(st, if_effect(if_type, cond, yes, no, st).0),
{
    reveal(keeps);
    lemma_kept_refl(st);
    if let Some(n) = parse_u32_spec(cond) {
    } else if let Comparison::Parts(op, x, y) = comparison(cond) {
        if let Some(n) = parse_u32_spec(y) {
            law_lookup_keeps_answers(st.lookups, Seq::empty(), 0, Seq::empty(), n);
        }
    }
}

proof fn lemma_if_macro_keeps(if_type: Seq<char>, args: Args, st: StateView)
    ensures
        kept(st, if_macro(if_type, args, st).0),
    decreases args, 7nat,
{
    reveal(if_macro);
    reveal(take_value_list);
    lemma_kept_refl(st);
    lemma_take_value_list_keeps(args, st);
    let (s1, a1, r) = take_value_list(args, st);
    if let Out::Ret(list) = r {
        if list.len() >= 3 {
            lemma_if_effect_keeps(if_type, val_text(list[0]), val_text(list[1]), val_text(list[2]), s1);
            lemma_kept_trans(
                st,
                s1,
                if_effect(if_type, val_text(list[0]), val_text(list[1]), val_text(list[2]), s1).0,
            );
        }
    }
}

proof fn lemma_switch_macro_keeps(args: Args, st: StateView)
    ensures
        kept(st, switch_macro(args, st).0),
    decreases args, 7nat,
{
    reveal(switch_macro);
    reveal(take_value_list);
    lemma_kept_refl(st);
    lemma_take_value_list_keeps(args, st);
}

proof fn lemma_ruby_macro_keeps(args: Args, st: StateView)
    ensures
        kept(st, ruby_macro(args, st).0),
    decreases args, 7nat,
{
    reveal(ruby_macro);
    reveal(take_str);
    lemma_kept_refl(st);
    lemma_take_str_keeps(args, st);
    let (s1, a1, r1) = take_str(args, st);
    if r1 is Ret && args.len() > 0 {
        lemma_take_str_keeps(args.drop_first(), s1);
        lemma_kept_trans(st, s1, take_str(args.drop_first(), s1).0);
    }
}

proof fn lemma_split_macro_keeps(args: Args, st: StateView)
    ensures
        kept(st, split_macro(args, st).0),
    decreases args, 7nat,
{
    reveal(split_macro);
    reveal(take_value_list);
    lemma_kept_refl(st);
    lemma_take_value_list_keeps(args, st);
}

/// A sheet reference looks up a column and then possibly a cell.
proof fn lemma_sheet_effect_keeps(list: Seq<Val>, st: StateView)
    ensures
        kept(st, sheet_effect(list, st)),
{
    reveal(keeps);
    lemma_kept_refl(st);
    let sheet = val_text(list[0]);
    let row = val_text(list[1]);
    let index = val_number(list[2]);
    let (lk1, found) = crate::lookup::column_lookup(st.lookups, sheet, index);
    law_lookup_keeps_answers(st.lookups, sheet, 0, Seq::empty(), index);
    let col = match found {
        Some(name) => name,
        None => crate::text::decimal(index as nat),
    };
    if let Some(r) = parse_u32_spec(row) {
        law_lookup_keeps_answers(lk1, sheet, r, col, 0);
        let s1 = StateView { lookups: lk1, ..st };
        let s2 = StateView { lookups: crate::lookup::cell_lookup(lk1, sheet, r, col).0, ..st };
        lemma_kept_trans(st, s1, s2);
    }
}

proof fn lemma_sheet_macro_keeps(args: Args, st: StateView)
    ensures
        kept(st, sheet_macro(args, st).0),
    decreases args, 7nat,
{
    reveal(sheet_macro);
    reveal(take_value_list);
    lemma_kept_refl(st);
    lemma_take_value_list_keeps(args, st);
    let (s1, a1, r) = take_value_list(args, st);
    if let Out::Ret(list) = r {
        if list.len() == 3 {
            lemma_sheet_effect_keeps(list, s1);
            let ghost s2 = StateView { lookups: sheet_effect(list, s1).lookups, ..s1 };
            lemma_kept_trans(st, s1, s2);
        }
    }
}

proof fn lemma_string_macro_keeps(args: Args, st: StateView)
    ensures
        kept(st, string_macro(args, st).0),
    decreases args, 7nat,
{
    reveal(string_macro);
    reveal(take_str);
    lemma_kept_refl(st);
    lemma_take_str_keeps(args, st);
}

proof fn lemma_generic_macro_keeps(tag: Seq<char>, args: Args, st: StateView)
    ensures
        kept(st, generic_macro(tag, args, st).0),
    decreases args, 6nat,
{
    reveal(generic_macro);
    reveal(take_value_list);
    lemma_kept_refl(st);
    lemma_take_value_list_keeps(args, st);
}

proof fn lemma_run_macro_keeps(kind: MacroKind, args: Args, st: StateView)
    ensures
        kept(st, run_macro(kind, args, st).0),
    decreases args, 8nat,
{
    reveal(run_macro);
    reveal(style_macro);
    reveal(color_macro);
    reveal(color_type_macro);
    reveal(reset_time_macro);
    reveal(set_time_macro);
    reveal(if_macro);
    reveal(switch_macro);
    reveal(ruby_macro);
    reveal(split_macro);
    reveal(sheet_macro);
    reveal(string_macro);
    reveal(generic_macro);
    lemma_kept_refl(st);
    match kind {
        MacroKind::Bold => lemma_style_macro_keeps(Style::Bold, args, st),
        MacroKind::Italic => lemma_style_macro_keeps(Style::Italic, args, st),
        MacroKind::Edge => lemma_style_macro_keeps(Style::Outline, args, st),
        MacroKind::Shadow => lemma_style_macro_keeps(Style::Shadow, args, st),
        MacroKind::Color => lemma_color_macro_keeps(kind, args, st),
        MacroKind::EdgeColor => lemma_color_macro_keeps(kind, args, st),
        MacroKind::ShadowColor => lemma_color_macro_keeps(kind, args, st),
        MacroKind::ColorType => lemma_color_type_macro_keeps(ColorUsage::Foreground, "ColorType"@, args, st),
        MacroKind::EdgeColorType => lemma_color_type_macro_keeps(ColorUsage::Edge, "EdgeColorType"@, args, st),
        MacroKind::SetResetTime => lemma_reset_time_macro_keeps(args, st),
        MacroKind::SetTime => lemma_set_time_macro_keeps(args, st),
        MacroKind::If => lemma_if_macro_keeps("If"@, args, st),
        MacroKind::IfSelf => lemma_if_macro_keeps("IfSelf"@, args, st),
        MacroKind::IfPcGender => lemma_if_macro_keeps("IfPcGender"@, args, st),
        MacroKind::IfPcName => lemma_if_macro_keeps("IfPcName"@, args, st),
        MacroKind::Switch => lemma_switch_macro_keeps(args, st),
        MacroKind::Ruby => lemma_ruby_macro_keeps(args, st),
        MacroKind::Split => lemma_split_macro_keeps(args, st),
        MacroKind::Sheet => lemma_sheet_macro_keeps(args, st),
        MacroKind::String => lemma_string_macro_keeps(args, st),
        MacroKind::Unknown(code) => {
            lemma_generic_macro_keeps("PlatformStr"@, args, st);
            lemma_generic_macro_keeps(unknown_tag(code), args, st);
        },
        MacroKind::NonBreakingSpace | MacroKind::Hyphen | MacroKind::SoftHyphen | MacroKind::NewLine
        | MacroKind::Other(_) => {},
        _ => {
            lemma_generic_macro_keeps("JaNoun"@, args, st);
            lemma_generic_macro_keeps("EnNoun"@, args, st);
            lemma_generic_macro_keeps("DeNoun"@, args, st);
            lemma_generic_macro_keeps("FrNoun"@, args, st);
            lemma_generic_macro_keeps("ChNoun"@, args, st);
            lemma_generic_macro_keeps("Icon"@, args, st);
            lemma_generic_macro_keeps("Icon2"@, args, st);
            lemma_generic_macro_keeps("Caps"@, args, st);
            lemma_generic_macro_keeps("Head"@, args, st);
            lemma_generic_macro_keeps("HeadAll"@, args, st);
            lemma_generic_macro_keeps("LowerHead"@, args, st);
            lemma_generic_macro_keeps("Lower"@, args, st);
            lemma_generic_macro_keeps("Kilo"@, args, st);
            lemma_generic_macro_keeps("Digit"@, args, st);
            lemma_generic_macro_keeps("Float"@, args, st);
            lemma_generic_macro_keeps("Key"@, args, st);
            lemma_generic_macro_keeps("Sec"@, args, st);
            lemma_generic_macro_keeps("LevelPos"@, args, st);
            lemma_generic_macro_keeps("Ordinal"@, args, st);
            lemma_generic_macro_keeps("Fixed"@, args, st);
            lemma_generic_macro_keeps("Num"@, args, st);
            lemma_generic_macro_keeps("PcName"@, args, st);
            lemma_generic_macro_keeps("Sound"@, args, st);
        },
    }
}

/// Evaluating an expression keeps the answers of the lookup table and only
/// adds questions after those already noted.
pub proof fn law_evaluation_keeps_answers(e: Expression, st: StateView)
    ensures
        answers_kept(st.lookups, eval(e, st).0.lookups),
{
    lemma_eval_keeps(e, st);
    reveal(keeps);
}

/// Formatting a whole string keeps the answers of the lookup table and
/// only adds questions after those already noted.
pub proof fn law_formatting_keeps_answers(ps: Seq<Result<Payload, SeStringError>>, st: StateView)
    ensures
        answers_kept(st.lookups, format_top(ps, st).0.lookups),
{
    lemma_format_top_keeps(ps, st);
    reveal(keeps);
}

/// No step of the formatter's meaning sets the halted flag: a nested string
/// and a macro leave it as they found it (only the executable code sets it,
/// where the meaning is to stop).
pub proof fn lemma_steps_keep_halted(s: SeString, m: MacroPayload, st: StateView)
    ensures
        format_sestring(s, st).0.halted == st.halted,
        format_macro(m, st).0.halted == st.halted,
{
    lemma_format_sestring_keeps(s, st);
    lemma_format_macro_keeps(m, st);
    reveal(keeps);
}

proof fn lemma_format_top_keeps(ps: Seq<Result<Payload, SeStringError>>, st: StateView)
    ensures
        kept(st, format_top(ps, st).0),
    decreases ps.len(),
{
    lemma_kept_refl(st);
    if ps.len() > 0 {
        match ps[0] {
            Ok(Payload::Macro(m)) => {
                lemma_format_macro_keeps(m, st);
                let (s1, o) = format_macro(m, st);
                match o {
                    Out::Ret(_) => {
                        lemma_format_top_keeps(ps.drop_first(), s1);
                        lemma_kept_trans(st, s1, format_top(ps.drop_first(), s1).0);
                    },
                    Out::Fail(e) => {
                        let s2 = write_st(s1, crate::formatter::macro_error_text(e, m.kind));
                        lemma_format_top_keeps(ps.drop_first(), s2);
                        lemma_kept_trans(st, s2, format_top(ps.drop_first(), s2).0);
                    },
                    Out::Abort => {},
                }
            },
            Err(e) => {
                let s1 = write_st(st, crate::formatter::payload_error_text(e));
                lemma_format_top_keeps(ps.drop_first(), s1);
                lemma_kept_trans(st, s1, format_top(ps.drop_first(), s1).0);
            },
            Ok(Payload::Text(Ok(t))) => {
                let s1 = write_st(st, t@);
                lemma_format_top_keeps(ps.drop_first(), s1);
                lemma_kept_trans(st, s1, format_top(ps.drop_first(), s1).0);
            },
            Ok(Payload::Text(Err(_))) => {
                let s1 = write_st(st, crate::formatter::unicode_error_text());
                lemma_format_top_keeps(ps.drop_first(), s1);
                lemma_kept_trans(st, s1, format_top(ps.drop_first(), s1).0);
            },
        }
    }
}

} // verus!
