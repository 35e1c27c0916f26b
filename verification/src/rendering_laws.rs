//! What the renderings are for: each law below says, for all inputs of a
//! kind, which text a decision of the formatter produces.

use vstd::prelude::*;
use crate::operator::{EQ, GE, GT, LE, LT, NE};
use crate::operator::operator_names;
use crate::semantics::{if_macro, first_index, format_macro, generic_macro, take_value_list, run_macro, ruby_macro, take_str, take_value, color_macro, color_hex, set_time_macro, lemma_take_consumes_one, Args, color_type_effect, cases_text, switch_effect, sheet_effect, split_text, comparison, eval, first_operator_from, if_effect, write_st, Comparison, Out};
use crate::text::{hex2, hex_char, decimal, digit_value, digits_value, parse_u32_spec};
use crate::sestring::{kind_name, Expression, MacroKind, MacroPayload, Payload};
use crate::convert_value::join_texts;
use crate::convert_value::{time_field_value, TimeField};
use crate::formatter::format_top;
use crate::state::StateView;
use crate::color_category::{category_of, ColorCategory};
use crate::write::{ColorUsage, Style};
use crate::writer::{styled, WriterView};
use crate::value::{error_message, val_number, val_text, SeStringError, Val};
use crate::lookup::{find_cell, find_column, find_job, RequestV};
use crate::string_process::{cleaned, pattern_texts};
use vstd::utf8::decode_utf8;

verus! {

proof fn lemma_operator_names_distinct()
    ensures
        GE@ != GT@, GE@ != LE@, GE@ != LT@, GE@ != EQ@, GE@ != NE@,
        GT@ != LE@, GT@ != LT@, GT@ != EQ@, GT@ != NE@,
        LE@ != LT@, LE@ != EQ@, LE@ != NE@,
        LT@ != EQ@, LT@ != NE@,
        EQ@ != NE@,
{
    reveal_strlit("GreaterThanOrEqualTo");
    reveal_strlit("GreaterThan");
    reveal_strlit("LessThanOrEqualTo");
    reveal_strlit("LessThan");
    reveal_strlit("Equal");
    reveal_strlit("NotEqual");
    assert(GE@.len() != GT@.len());
    assert(GE@.len() != LE@.len());
    assert(GE@.len() != LT@.len());
    assert(GE@.len() != EQ@.len());
    assert(GE@.len() != NE@.len());
    assert(GT@.len() != LE@.len());
    assert(GT@[0] != LT@[0]);
    assert(GT@.len() != EQ@.len());
    assert(GT@.len() != NE@.len());
    assert(LE@.len() != LT@.len());
    assert(LE@.len() != EQ@.len());
    assert(LE@.len() != NE@.len());
    assert(LT@.len() != EQ@.len());
    assert(LT@[0] != NE@[0]);
    assert(EQ@.len() != NE@.len());
}

/// A comparison of two numbers evaluates to the text `true` exactly when
/// the numbers stand in the operator's relation, and to `false` otherwise;
/// evaluating it changes nothing.
pub proof fn law_number_comparisons(a: u32, b: u32, st: StateView)
    ensures
        eval(Expression::Ge(Box::new(Expression::U32(a)), Box::new(Expression::U32(b))), st)
            == (st, crate::semantics::Out::Ret(Val::Text(if a >= b { "true"@ } else { "false"@ }))),
        eval(Expression::Gt(Box::new(Expression::U32(a)), Box::new(Expression::U32(b))), st)
            == (st, crate::semantics::Out::Ret(Val::Text(if a > b { "true"@ } else { "false"@ }))),
        eval(Expression::Le(Box::new(Expression::U32(a)), Box::new(Expression::U32(b))), st)
            == (st, crate::semantics::Out::Ret(Val::Text(if a <= b { "true"@ } else { "false"@ }))),
        eval(Expression::Lt(Box::new(Expression::U32(a)), Box::new(Expression::U32(b))), st)
            == (st, crate::semantics::Out::Ret(Val::Text(if a < b { "true"@ } else { "false"@ }))),
        eval(Expression::Eq(Box::new(Expression::U32(a)), Box::new(Expression::U32(b))), st)
            == (st, crate::semantics::Out::Ret(Val::Text(if a == b { "true"@ } else { "false"@ }))),
        eval(Expression::Ne(Box::new(Expression::U32(a)), Box::new(Expression::U32(b))), st)
            == (st, crate::semantics::Out::Ret(Val::Text(if a != b { "true"@ } else { "false"@ }))),
{
    reveal_with_fuel(eval, 2);
    lemma_operator_names_distinct();
}



/// A comparison whose left operand is a reference to a numbered global
/// parameter cannot be decided, so it evaluates to the comparison written
/// out, `op(<Global(n)>,m)`, with the operator's own name; evaluating it
/// changes nothing.
pub proof fn law_written_out_comparisons(n: u32, m: u32, st: StateView)
    ensures
        eval(Expression::Ge(Box::new(Expression::GlobalNumber(Box::new(Expression::U32(n)))), Box::new(Expression::U32(m))), st)
            == (st, Out::Ret(Val::Text("GreaterThanOrEqualTo(<Global("@ + decimal(n as nat) + ")>,"@ + decimal(m as nat) + ")"@))),
        eval(Expression::Gt(Box::new(Expression::GlobalNumber(Box::new(Expression::U32(n)))), Box::new(Expression::U32(m))), st)
            == (st, Out::Ret(Val::Text("GreaterThan(<Global("@ + decimal(n as nat) + ")>,"@ + decimal(m as nat) + ")"@))),
        eval(Expression::Le(Box::new(Expression::GlobalNumber(Box::new(Expression::U32(n)))), Box::new(Expression::U32(m))), st)
            == (st, Out::Ret(Val::Text("LessThanOrEqualTo(<Global("@ + decimal(n as nat) + ")>,"@ + decimal(m as nat) + ")"@))),
        eval(Expression::Lt(Box::new(Expression::GlobalNumber(Box::new(Expression::U32(n)))), Box::new(Expression::U32(m))), st)
            == (st, Out::Ret(Val::Text("LessThan(<Global("@ + decimal(n as nat) + ")>,"@ + decimal(m as nat) + ")"@))),
        eval(Expression::Eq(Box::new(Expression::GlobalNumber(Box::new(Expression::U32(n)))), Box::new(Expression::U32(m))), st)
            == (st, Out::Ret(Val::Text("Equal(<Global("@ + decimal(n as nat) + ")>,"@ + decimal(m as nat) + ")"@))),
        eval(Expression::Ne(Box::new(Expression::GlobalNumber(Box::new(Expression::U32(n)))), Box::new(Expression::U32(m))), st)
            == (st, Out::Ret(Val::Text("NotEqual(<Global("@ + decimal(n as nat) + ")>,"@ + decimal(m as nat) + ")"@))),
{
    reveal_with_fuel(eval, 3);
    reveal_strlit("GreaterThanOrEqualTo");
    reveal_strlit("GreaterThan");
    reveal_strlit("LessThanOrEqualTo");
    reveal_strlit("LessThan");
    reveal_strlit("Equal");
    reveal_strlit("NotEqual");
    reveal_strlit("(");
    reveal_strlit(",");
    reveal_strlit(")");
    reveal_strlit("<Global(");
    reveal_strlit(")>");
    reveal_strlit(")>,");
    reveal_strlit("GreaterThanOrEqualTo(<Global(");
    reveal_strlit("GreaterThan(<Global(");
    reveal_strlit("LessThanOrEqualTo(<Global(");
    reveal_strlit("LessThan(<Global(");
    reveal_strlit("Equal(<Global(");
    reveal_strlit("NotEqual(<Global(");
    let g = "<Global("@ + decimal(n as nat) + ")>"@;
    let d = decimal(m as nat);
    assert(GE@ + "("@ + g + ","@ + d + ")"@ =~= "GreaterThanOrEqualTo(<Global("@ + decimal(n as nat) + ")>,"@ + d + ")"@);
    assert(GT@ + "("@ + g + ","@ + d + ")"@ =~= "GreaterThan(<Global("@ + decimal(n as nat) + ")>,"@ + d + ")"@);
    assert(LE@ + "("@ + g + ","@ + d + ")"@ =~= "LessThanOrEqualTo(<Global("@ + decimal(n as nat) + ")>,"@ + d + ")"@);
    assert(LT@ + "("@ + g + ","@ + d + ")"@ =~= "LessThan(<Global("@ + decimal(n as nat) + ")>,"@ + d + ")"@);
    assert(EQ@ + "("@ + g + ","@ + d + ")"@ =~= "Equal(<Global("@ + decimal(n as nat) + ")>,"@ + d + ")"@);
    assert(NE@ + "("@ + g + ","@ + d + ")"@ =~= "NotEqual(<Global("@ + decimal(n as nat) + ")>,"@ + d + ")"@);
}

/// A run of characters has a decimal value only where every character is a
/// digit.
proof fn lemma_digits_are_digits(s: Seq<char>, i: int)
    requires
        digits_value(s) is Some,
        0 <= i < s.len(),
    ensures
        digit_value(s[i]) is Some,
    decreases s.len(),
{
    if i < s.len() - 1 {
        assert(s.drop_last()[i] == s[i]);
        lemma_digits_are_digits(s.drop_last(), i);
    }
}

/// The operator found at the front of a text is one of the operator names
/// and a prefix of the text.
proof fn lemma_first_operator_found(s: Seq<char>, ops: Seq<Seq<char>>, op: Seq<char>)
    requires
        first_operator_from(s, ops) == Some(op),
    ensures
        op.is_prefix_of(s),
        ops.contains(op),
    decreases ops.len(),
{
    if !ops[0].is_prefix_of(s) {
        lemma_first_operator_found(s, ops.drop_first(), op);
        let k = choose|k: int| 0 <= k < ops.drop_first().len() && ops.drop_first()[k] == op;
        assert(ops[k + 1] == op);
    } else {
        assert(ops[0] == op);
    }
}

/// A condition that reads as a comparison starts with a letter, so it is
/// not a number.
proof fn lemma_comparison_is_not_a_number(cond: Seq<char>)
    requires
        comparison(cond) is Parts,
    ensures
        parse_u32_spec(cond) is None,
{
    reveal_strlit("GreaterThanOrEqualTo");
    reveal_strlit("GreaterThan");
    reveal_strlit("LessThanOrEqualTo");
    reveal_strlit("LessThan");
    reveal_strlit("Equal");
    reveal_strlit("NotEqual");
    let op = first_operator_from(cond, operator_names())->Some_0;
    lemma_first_operator_found(cond, operator_names(), op);
    let k = choose|k: int| 0 <= k < operator_names().len() && operator_names()[k] == op;
    assert(op[0] == 'G' || op[0] == 'L' || op[0] == 'E' || op[0] == 'N');
    assert(cond[0] == op.subrange(0, op.len() as int)[0]);
    assert(cond.subrange(0, op.len() as int)[0] == cond[0]);
    if digits_value(cond) is Some {
        lemma_digits_are_digits(cond, 0);
    }
}

/// An `If` on a grand company condition (`GreaterThan(<Global(52)>,0)` for
/// the Maelstrom, 53 for the Twin Adder, 54 for the Immortal Flames) whose
/// yes-branch is the company's title placeholder alone and whose no-branch
/// is empty writes the title bare; any other branches are written inside
/// the company's tag.
pub proof fn law_grand_company_conditions(cond: Seq<char>, x: Seq<char>, yes: Seq<char>, no: Seq<char>, st: StateView)
    requires
        comparison(cond) == Comparison::Parts(GT@, x, "0"@),
        yes != no,
    ensures
        x == "<Global(52)>"@ && yes == "[Limsa GC Title]"@ && no.len() == 0
            ==> if_effect("If"@, cond, yes, no, st) == (write_st(st, "[Limsa GC Title]"@), Out::<()>::Ret(())),
        x == "<Global(53)>"@ && yes == "[Gridania GC Title]"@ && no.len() == 0
            ==> if_effect("If"@, cond, yes, no, st) == (write_st(st, "[Gridania GC Title]"@), Out::<()>::Ret(())),
        x == "<Global(54)>"@ && yes == "[Ul'dah GC Title]"@ && no.len() == 0
            ==> if_effect("If"@, cond, yes, no, st) == (write_st(st, "[Ul'dah GC Title]"@), Out::<()>::Ret(())),
        x == "<Global(52)>"@ && !(yes == "[Limsa GC Title]"@ && no.len() == 0)
            ==> if_effect("If"@, cond, yes, no, st) == (write_st(st, "<IfLimsaGC>"@ + yes
                + (if no.len() != 0 { "<Else>"@ + no } else { Seq::empty() }) + "</IfLimsaGC>"@), Out::<()>::Ret(())),
        x == "<Global(53)>"@ && !(yes == "[Gridania GC Title]"@ && no.len() == 0)
            ==> if_effect("If"@, cond, yes, no, st) == (write_st(st, "<IfGridaniaGC>"@ + yes
                + (if no.len() != 0 { "<Else>"@ + no } else { Seq::empty() }) + "</IfGridaniaGC>"@), Out::<()>::Ret(())),
        x == "<Global(54)>"@ && !(yes == "[Ul'dah GC Title]"@ && no.len() == 0)
            ==> if_effect("If"@, cond, yes, no, st) == (write_st(st, "<IfUldahGC>"@ + yes
                + (if no.len() != 0 { "<Else>"@ + no } else { Seq::empty() }) + "</IfUldahGC>"@), Out::<()>::Ret(())),
{
    lemma_comparison_is_not_a_number(cond);
    reveal_strlit("<Global(52)>");
    reveal_strlit("<Global(53)>");
    reveal_strlit("<Global(54)>");
    reveal_strlit("If");
    assert("<Global(52)>"@[9] != "<Global(53)>"@[9]);
    assert("<Global(52)>"@[9] != "<Global(54)>"@[9]);
    assert("<Global(53)>"@[9] != "<Global(54)>"@[9]);
    assert(("<"@ + "IfLimsaGC"@ + ">"@ + yes + (if no.len() != 0 { "<Else>"@ + no } else { Seq::empty() }) + "</"@
        + "IfLimsaGC"@ + ">"@) =~= ("<IfLimsaGC>"@ + yes + (if no.len() != 0 { "<Else>"@ + no } else {
        Seq::empty() }) + "</IfLimsaGC>"@)) by {
        reveal_strlit("<");
        reveal_strlit(">");
        reveal_strlit("</");
        reveal_strlit("IfLimsaGC");
        reveal_strlit("<IfLimsaGC>");
        reveal_strlit("</IfLimsaGC>");
    }
    assert(("<"@ + "IfGridaniaGC"@ + ">"@ + yes + (if no.len() != 0 { "<Else>"@ + no } else { Seq::empty() })
        + "</"@ + "IfGridaniaGC"@ + ">"@) =~= ("<IfGridaniaGC>"@ + yes + (if no.len() != 0 { "<Else>"@ + no } else {
        Seq::empty() }) + "</IfGridaniaGC>"@)) by {
        reveal_strlit("<");
        reveal_strlit(">");
        reveal_strlit("</");
        reveal_strlit("IfGridaniaGC");
        reveal_strlit("<IfGridaniaGC>");
        reveal_strlit("</IfGridaniaGC>");
    }
    assert(("<"@ + "IfUldahGC"@ + ">"@ + yes + (if no.len() != 0 { "<Else>"@ + no } else { Seq::empty() }) + "</"@
        + "IfUldahGC"@ + ">"@) =~= ("<IfUldahGC>"@ + yes + (if no.len() != 0 { "<Else>"@ + no } else {
        Seq::empty() }) + "</IfUldahGC>"@)) by {
        reveal_strlit("<");
        reveal_strlit(">");
        reveal_strlit("</");
        reveal_strlit("IfUldahGC");
        reveal_strlit("<IfUldahGC>");
        reveal_strlit("</IfUldahGC>");
    }
}


/// Splitting the player's name (`<Global(1)>`) at a space gives the
/// forename placeholder for part 1 and the surname placeholder for part 2;
/// a party member's name (`<PcName(<Local(n)>)>`, n being 1 or 2) gives the
/// tags `<Forename(n)>` and `<Surname(n)>`.
pub proof fn law_name_splits(list: Seq<Val>)
    requires
        list.len() >= 3,
        val_text(list[1]) == " "@,
    ensures
        val_text(list[0]) == "<Global(1)>"@ && val_text(list[2]) == "1"@ ==> split_text(list) == "[Forename]"@,
        val_text(list[0]) == "<Global(1)>"@ && val_text(list[2]) == "2"@ ==> split_text(list) == "[Surname]"@,
        val_text(list[0]) == "<PcName(<Local(1)>)>"@ && val_text(list[2]) == "1"@ ==> split_text(list) == "<Forename(1)>"@,
        val_text(list[0]) == "<PcName(<Local(1)>)>"@ && val_text(list[2]) == "2"@ ==> split_text(list) == "<Surname(1)>"@,
        val_text(list[0]) == "<PcName(<Local(2)>)>"@ && val_text(list[2]) == "1"@ ==> split_text(list) == "<Forename(2)>"@,
        val_text(list[0]) == "<PcName(<Local(2)>)>"@ && val_text(list[2]) == "2"@ ==> split_text(list) == "<Surname(2)>"@,
{
    reveal_strlit("1");
    reveal_strlit("2");
    reveal_strlit("<Global(1)>");
    reveal_strlit("<PcName(<Local(1)>)>");
    reveal_strlit("<PcName(<Local(2)>)>");
    assert("<Global(1)>"@.len() != "<PcName(<Local(1)>)>"@.len());
    assert("<PcName(<Local(1)>)>"@[15] != "<PcName(<Local(2)>)>"@[15]);
    assert("1"@[0] != "2"@[0]);
}


/// A sheet reference to a grand company's rank texts (its male or female
/// sheet), with the player's rank with that company (`<Global(52)>`,
/// `<Global(53)>` or `<Global(54)>`) as row, renders the company's rank
/// placeholder for the `NameRank` column and its title placeholder for the
/// `Singular` column, whatever the state, once the column's name is known.
pub proof fn law_grand_company_rank_sheets(list: Seq<Val>, st: StateView, col: Seq<char>)
    requires
        list.len() == 3,
        find_column(st.lookups.columns, val_text(list[0]), val_number(list[2])) == Some(Some(col)),
    ensures
        (val_text(list[0]) == "GCRankLimsaMaleText"@ || val_text(list[0]) == "GCRankLimsaFemaleText"@)
            && val_text(list[1]) == "<Global(52)>"@ && col == "NameRank"@
            ==> sheet_effect(list, st) == write_st(st, "[Limsa GC Rank]"@),
        (val_text(list[0]) == "GCRankLimsaMaleText"@ || val_text(list[0]) == "GCRankLimsaFemaleText"@)
            && val_text(list[1]) == "<Global(52)>"@ && col == "Singular"@
            ==> sheet_effect(list, st) == write_st(st, "[Limsa GC Title]"@),
        (val_text(list[0]) == "GCRankGridaniaMaleText"@ || val_text(list[0]) == "GCRankGridaniaFemaleText"@)
            && val_text(list[1]) == "<Global(53)>"@ && col == "NameRank"@
            ==> sheet_effect(list, st) == write_st(st, "[Gridania GC Rank]"@),
        (val_text(list[0]) == "GCRankGridaniaMaleText"@ || val_text(list[0]) == "GCRankGridaniaFemaleText"@)
            && val_text(list[1]) == "<Global(53)>"@ && col == "Singular"@
            ==> sheet_effect(list, st) == write_st(st, "[Gridania GC Title]"@),
        (val_text(list[0]) == "GCRankUldahMaleText"@ || val_text(list[0]) == "GCRankUldahFemaleText"@)
            && val_text(list[1]) == "<Global(54)>"@ && col == "NameRank"@
            ==> sheet_effect(list, st) == write_st(st, "[Ul'dah GC Rank]"@),
        (val_text(list[0]) == "GCRankUldahMaleText"@ || val_text(list[0]) == "GCRankUldahFemaleText"@)
            && val_text(list[1]) == "<Global(54)>"@ && col == "Singular"@
            ==> sheet_effect(list, st) == write_st(st, "[Ul'dah GC Title]"@),
{
    reveal_strlit("GCRankLimsaMaleText");
    reveal_strlit("GCRankLimsaFemaleText");
    reveal_strlit("GCRankGridaniaMaleText");
    reveal_strlit("GCRankGridaniaFemaleText");
    reveal_strlit("GCRankUldahMaleText");
    reveal_strlit("GCRankUldahFemaleText");
    reveal_strlit("<Global(52)>");
    reveal_strlit("<Global(53)>");
    reveal_strlit("<Global(54)>");
    reveal_strlit("NameRank");
    reveal_strlit("Singular");
    let r = val_text(list[1]);
    if r == "<Global(52)>"@ || r == "<Global(53)>"@ || r == "<Global(54)>"@ {
        assert(r.last() == '>');
        if digits_value(r) is Some {
            lemma_digits_are_digits(r, r.len() - 1);
        }
        assert(parse_u32_spec(r) is None);
    }
    assert("<Global(52)>"@[9] != "<Global(53)>"@[9]);
    assert("<Global(52)>"@[9] != "<Global(54)>"@[9]);
    assert("<Global(53)>"@[9] != "<Global(54)>"@[9]);
    assert("NameRank"@[0] != "Singular"@[0]);
    assert("GCRankLimsaMaleText"@[6] != "GCRankGridaniaMaleText"@[6]);
    assert("GCRankLimsaMaleText"@[6] != "GCRankUldahMaleText"@[6]);
    assert("GCRankLimsaMaleText"@[6] != "GCRankGridaniaFemaleText"@[6]);
    assert("GCRankLimsaMaleText"@[6] != "GCRankUldahFemaleText"@[6]);
    assert("GCRankLimsaFemaleText"@[6] != "GCRankGridaniaMaleText"@[6]);
    assert("GCRankLimsaFemaleText"@[6] != "GCRankUldahMaleText"@[6]);
    assert("GCRankLimsaFemaleText"@[6] != "GCRankGridaniaFemaleText"@[6]);
    assert("GCRankLimsaFemaleText"@[6] != "GCRankUldahFemaleText"@[6]);
    assert("GCRankGridaniaMaleText"@[6] != "GCRankUldahMaleText"@[6]);
    assert("GCRankGridaniaMaleText"@[6] != "GCRankUldahFemaleText"@[6]);
    assert("GCRankGridaniaFemaleText"@[6] != "GCRankUldahMaleText"@[6]);
    assert("GCRankGridaniaFemaleText"@[6] != "GCRankUldahFemaleText"@[6]);
}


/// Each fragment that tidying replaces becomes the text paired with it:
/// typographic dashes and quotes become plain ones, the player-name
/// reference becomes the name placeholders, and each three-company
/// alternative becomes the shared grand company placeholder, keeping what
/// all three alternatives share (a trailing space, `[Surname]`,
/// `[Forename]`, `<Head(..)>`). The text before a replaced fragment is kept
/// as it is.
pub proof fn law_fragment_replacements(bytes: Seq<u8>, ms: Seq<(usize, usize, usize)>, last: int)
    requires
        ms.len() > 0,
        last <= ms[0].0,
    ensures
        ms[0].2 == 0 ==> pattern_texts()[0] == "─"@
            && cleaned(bytes, ms, last) == decode_utf8(bytes.subrange(last, ms[0].0 as int)) + "—"@
                + cleaned(bytes, ms.drop_first(), ms[0].1 as int),
        ms[0].2 == 1 ==> pattern_texts()[1] == "–"@
            && cleaned(bytes, ms, last) == decode_utf8(bytes.subrange(last, ms[0].0 as int)) + "-"@
                + cleaned(bytes, ms.drop_first(), ms[0].1 as int),
        ms[0].2 == 2 ==> pattern_texts()[2] == "“"@
            && cleaned(bytes, ms, last) == decode_utf8(bytes.subrange(last, ms[0].0 as int)) + "\""@
                + cleaned(bytes, ms.drop_first(), ms[0].1 as int),
        ms[0].2 == 3 ==> pattern_texts()[3] == "”"@
            && cleaned(bytes, ms, last) == decode_utf8(bytes.subrange(last, ms[0].0 as int)) + "\""@
                + cleaned(bytes, ms.drop_first(), ms[0].1 as int),
        ms[0].2 == 4 ==> pattern_texts()[4] == "<Global(1)>"@
            && cleaned(bytes, ms, last) == decode_utf8(bytes.subrange(last, ms[0].0 as int)) + "[Forename] [Surname]"@
                + cleaned(bytes, ms.drop_first(), ms[0].1 as int),
        ms[0].2 == 5 ==> pattern_texts()[5] == "[Limsa GC Title][Gridania GC Title][Ul'dah GC Title]"@
            && cleaned(bytes, ms, last) == decode_utf8(bytes.subrange(last, ms[0].0 as int)) + "[GC Title]"@
                + cleaned(bytes, ms.drop_first(), ms[0].1 as int),
        ms[0].2 == 6 ==> pattern_texts()[6] == "<IfLimsaGC>[Limsa GC Rank]</IfLimsaGC><IfGridaniaGC>[Gridania GC Rank]</IfGridaniaGC><IfUldahGC>[Ul'dah GC Rank]</IfUldahGC>"@
            && cleaned(bytes, ms, last) == decode_utf8(bytes.subrange(last, ms[0].0 as int)) + "[GC Rank]"@
                + cleaned(bytes, ms.drop_first(), ms[0].1 as int),
        ms[0].2 == 7 ==> pattern_texts()[7] == "<IfLimsaGC>[Limsa GC Title]<Else><IfGridaniaGC>[Gridania GC Title]<Else>[Ul'dah GC Title]</IfGridaniaGC></IfLimsaGC>"@
            && cleaned(bytes, ms, last) == decode_utf8(bytes.subrange(last, ms[0].0 as int)) + "[GC Title]"@
                + cleaned(bytes, ms.drop_first(), ms[0].1 as int),
        ms[0].2 == 8 ==> pattern_texts()[8] == "<IfLimsaGC>[Limsa GC Title] </IfLimsaGC><IfGridaniaGC>[Gridania GC Title] </IfGridaniaGC><IfUldahGC>[Ul'dah GC Title] </IfUldahGC>"@
            && cleaned(bytes, ms, last) == decode_utf8(bytes.subrange(last, ms[0].0 as int)) + "[GC Title] "@
                + cleaned(bytes, ms.drop_first(), ms[0].1 as int),
        ms[0].2 == 9 ==> pattern_texts()[9] == "<IfLimsaGC>[Limsa GC Title] [Surname]</IfLimsaGC><IfGridaniaGC>[Gridania GC Title] [Surname]</IfGridaniaGC><IfUldahGC>[Ul'dah GC Title] [Surname]</IfUldahGC>"@
            && cleaned(bytes, ms, last) == decode_utf8(bytes.subrange(last, ms[0].0 as int)) + "[GC Title] [Surname]"@
                + cleaned(bytes, ms.drop_first(), ms[0].1 as int),
        ms[0].2 == 10 ==> pattern_texts()[10] == "<IfLimsaGC>[Forename][Limsa GC Title]</IfLimsaGC><IfGridaniaGC>[Forename][Gridania GC Title]</IfGridaniaGC><IfUldahGC>[Forename][Ul'dah GC Title]</IfUldahGC>"@
            && cleaned(bytes, ms, last) == decode_utf8(bytes.subrange(last, ms[0].0 as int)) + "[Forename][GC Title]"@
                + cleaned(bytes, ms.drop_first(), ms[0].1 as int),
        ms[0].2 == 11 ==> pattern_texts()[11] == "<IfLimsaGC>[Surname][Limsa GC Title]</IfLimsaGC><IfGridaniaGC>[Surname][Gridania GC Title]</IfGridaniaGC><IfUldahGC>[Surname][Ul'dah GC Title]</IfUldahGC>"@
            && cleaned(bytes, ms, last) == decode_utf8(bytes.subrange(last, ms[0].0 as int)) + "[Surname][GC Title]"@
                + cleaned(bytes, ms.drop_first(), ms[0].1 as int),
        ms[0].2 == 12 ==> pattern_texts()[12] == "<IfLimsaGC><Head([Limsa GC Title])></IfLimsaGC><IfGridaniaGC><Head([Gridania GC Title])></IfGridaniaGC><IfUldahGC><Head([Ul'dah GC Title])></IfUldahGC>"@
            && cleaned(bytes, ms, last) == decode_utf8(bytes.subrange(last, ms[0].0 as int)) + "<Head([GC Title])>"@
                + cleaned(bytes, ms.drop_first(), ms[0].1 as int),
        ms[0].2 == 13 ==> pattern_texts()[13] == "<IfLimsaGC><Head([Limsa GC Title])> </IfLimsaGC><IfGridaniaGC><Head([Gridania GC Title])> </IfGridaniaGC><IfUldahGC><Head([Ul'dah GC Title])> </IfUldahGC>"@
            && cleaned(bytes, ms, last) == decode_utf8(bytes.subrange(last, ms[0].0 as int)) + "<Head([GC Title])> "@
                + cleaned(bytes, ms.drop_first(), ms[0].1 as int),
        ms[0].2 == 14 ==> pattern_texts()[14] == "<IfLimsaGC><Head([Limsa GC Title])> [Surname]</IfLimsaGC><IfGridaniaGC><Head([Gridania GC Title])> [Surname]</IfGridaniaGC><IfUldahGC><Head([Ul'dah GC Title])> [Surname]</IfUldahGC>"@
            && cleaned(bytes, ms, last) == decode_utf8(bytes.subrange(last, ms[0].0 as int)) + "<Head([GC Title])> [Surname]"@
                + cleaned(bytes, ms.drop_first(), ms[0].1 as int),
{
}


/// The conditions "true", "false" and `<Global(4)>` are neither numbers nor
/// comparisons.
proof fn lemma_plain_conditions()
    ensures
        comparison("true"@) is NotComparison,
        comparison("false"@) is NotComparison,
        comparison("<Global(4)>"@) is NotComparison,
        parse_u32_spec("true"@) is None,
        parse_u32_spec("false"@) is None,
        parse_u32_spec("<Global(4)>"@) is None,
{
    reveal_strlit("GreaterThanOrEqualTo");
    reveal_strlit("GreaterThan");
    reveal_strlit("LessThanOrEqualTo");
    reveal_strlit("LessThan");
    reveal_strlit("Equal");
    reveal_strlit("NotEqual");
    reveal_strlit("true");
    reveal_strlit("false");
    reveal_strlit("<Global(4)>");
    let ops = operator_names();
    assert forall|s: Seq<char>| #![auto] (s == "true"@ || s == "false"@ || s == "<Global(4)>"@)
        implies first_operator_from(s, ops) is None by {
        let mut k: int = 0;
        assert(!ops[0].is_prefix_of(s)) by { assert(ops[0][0] != s[0] || ops[0].len() > s.len()); if ops[0].len() <= s.len() { assert(s.subrange(0, ops[0].len() as int)[0] == s[0]); } }
        assert(!ops[1].is_prefix_of(s)) by { if ops[1].len() <= s.len() { assert(s.subrange(0, ops[1].len() as int)[0] == s[0]); } }
        assert(!ops[2].is_prefix_of(s)) by { if ops[2].len() <= s.len() { assert(s.subrange(0, ops[2].len() as int)[0] == s[0]); } }
        assert(!ops[3].is_prefix_of(s)) by { if ops[3].len() <= s.len() { assert(s.subrange(0, ops[3].len() as int)[0] == s[0]); } }
        assert(!ops[4].is_prefix_of(s)) by { if ops[4].len() <= s.len() { assert(s.subrange(0, ops[4].len() as int)[0] == s[0]); } }
        assert(!ops[5].is_prefix_of(s)) by { if ops[5].len() <= s.len() { assert(s.subrange(0, ops[5].len() as int)[0] == s[0]); } }
        reveal_with_fuel(first_operator_from, 7);
    }
    if digits_value("true"@) is Some {
        lemma_digits_are_digits("true"@, 0);
    }
    if digits_value("false"@) is Some {
        lemma_digits_are_digits("false"@, 0);
    }
    if digits_value("<Global(4)>"@) is Some {
        lemma_digits_are_digits("<Global(4)>"@, 0);
    }
}

/// How a conditional is rendered from its condition and branches (all as
/// text): equal branches are written as they are; a numeric condition picks
/// the yes-branch when it is not zero and the no-branch when it is; for
/// `If`, the gender condition `<Global(4)>` becomes a female/male
/// alternative, and the conditions "true" and "false" pick a branch; any
/// other conditional of the other kinds is written as a tag with its
/// condition.
pub proof fn law_conditionals(if_type: Seq<char>, cond: Seq<char>, yes: Seq<char>, no: Seq<char>, st: StateView)
    ensures
        yes == no ==> if_effect(if_type, cond, yes, no, st) == (write_st(st, yes), Out::<()>::Ret(())),
        yes != no && (parse_u32_spec(cond) matches Some(n) && n != 0)
            ==> if_effect(if_type, cond, yes, no, st) == (write_st(st, yes), Out::<()>::Ret(())),
        yes != no && parse_u32_spec(cond) == Some(0u32)
            ==> if_effect(if_type, cond, yes, no, st) == (write_st(st, no), Out::<()>::Ret(())),
        yes != no && if_type == "If"@ && cond == "<Global(4)>"@
            ==> if_effect(if_type, cond, yes, no, st) == (write_st(st, "{{alternatives|f="@ + yes + "|m="@ + no
                + "}}"@), Out::<()>::Ret(())),
        yes != no && if_type == "If"@ && cond == "true"@
            ==> if_effect(if_type, cond, yes, no, st) == (write_st(st, yes), Out::<()>::Ret(())),
        yes != no && if_type == "If"@ && cond == "false"@
            ==> if_effect(if_type, cond, yes, no, st) == (write_st(st, no), Out::<()>::Ret(())),
        yes != no && if_type != "If"@ && parse_u32_spec(cond) is None
            ==> if_effect(if_type, cond, yes, no, st) == (write_st(st, "<"@ + if_type + "("@ + cond + ")>"@ + yes
                + (if no.len() != 0 { "<Else>"@ + no } else { Seq::empty() }) + "</"@ + if_type + ">"@),
                Out::<()>::Ret(())),
{
    lemma_plain_conditions();
    reveal_strlit("<Global(4)>");
    reveal_strlit("true");
    reveal_strlit("false");
    assert("true"@.len() != "false"@.len());
    assert("true"@.len() != "<Global(4)>"@.len());
    assert("false"@.len() != "<Global(4)>"@.len());
}

/// An `If` on the player's class or job (`Equal(<Global(68)>,n)`) is
/// written as an `IfClassJob` tag naming the class or job where the lookup
/// table knows its name, and its number where it does not (the question
/// is then noted).
pub proof fn law_class_job_conditions(cond: Seq<char>, y: Seq<char>, n: u32, yes: Seq<char>, no: Seq<char>, st: StateView)
    requires
        comparison(cond) == Comparison::Parts(EQ@, "<Global(68)>"@, y),
        parse_u32_spec(y) == Some(n),
        yes != no,
    ensures
        find_job(st.lookups.class_jobs, n) matches Some(Some(name))
            ==> if_effect("If"@, cond, yes, no, st) == (write_st(st, "<IfClassJob("@ + name + ")>"@ + yes
                + (if no.len() != 0 { "<Else>"@ + no } else { Seq::empty() }) + "</IfClassJob>"@), Out::<()>::Ret(())),
        find_job(st.lookups.class_jobs, n) is None
            ==> if_effect("If"@, cond, yes, no, st).1 == Out::<()>::Ret(())
                && if_effect("If"@, cond, yes, no, st).0.writer.buffer == st.writer.buffer + ("<IfClassJob("@ + y
                + ")>"@ + yes + (if no.len() != 0 { "<Else>"@ + no } else { Seq::empty() }) + "</IfClassJob>"@)
                && if_effect("If"@, cond, yes, no, st).0.lookups.missing == st.lookups.missing.push(
                    RequestV::ClassJob(n)),
{
    lemma_comparison_is_not_a_number(cond);
    lemma_operator_names_distinct();
    reveal_strlit("<Global(68)>");
    reveal_strlit("<Global(52)>");
    reveal_strlit("<Global(53)>");
    reveal_strlit("<Global(54)>");
    reveal_strlit("If");
    assert("<Global(68)>"@[8] != "<Global(52)>"@[8]);
    assert("<Global(68)>"@[8] != "<Global(53)>"@[8]);
    assert("<Global(68)>"@[8] != "<Global(54)>"@[8]);
    let tail = (if no.len() != 0 { "<Else>"@ + no } else { Seq::empty() });
    assert forall|t: Seq<char>| ("<"@ + "IfClassJob"@ + "("@ + t + ")>"@ + yes + tail + "</"@ + "IfClassJob"@
        + ">"@) =~= ("<IfClassJob("@ + t + ")>"@ + yes + tail + "</IfClassJob>"@) by {
        reveal_strlit("<");
        reveal_strlit("(");
        reveal_strlit(">");
        reveal_strlit("</");
        reveal_strlit("IfClassJob");
        reveal_strlit("<IfClassJob(");
        reveal_strlit("</IfClassJob>");
    }
}


/// How a switch is rendered from its evaluated arguments: the city of the
/// player's grand company (`<Global(70)>`) picks among Limsa Lominsa,
/// Gridania and Ul'dah in that order; the player's race (`<Global(71)>`)
/// among Hyur, Elezen, Lalafell, Miqo'te, Roegadyn, Au Ra, Hrothgar and
/// Viera in that order; a number `u` picks argument `u` (the cases counting
/// from 1); another switch value with one case is written out as a tag.
pub proof fn law_switches(list: Seq<Val>, st: StateView)
    requires
        list.len() >= 1,
        list.len() <= u32::MAX,
    ensures
        list[0] == Val::Text("<Global(70)>"@) && list.len() >= 4
            ==> switch_effect(list, st) == (write_st(st, "{{alternatives|limsa="@ + val_text(list[1])
                + "|gridania="@ + val_text(list[2]) + "|uldah="@ + val_text(list[3]) + "}}"@), Out::<()>::Ret(())),
        list[0] == Val::Text("<Global(71)>"@) && list.len() >= 9
            ==> switch_effect(list, st) == (write_st(st, "{{alternatives|hyur="@ + val_text(list[1])
                + "|elezen="@ + val_text(list[2]) + "|lalafell="@ + val_text(list[3]) + "|miqote="@
                + val_text(list[4]) + "|roegadyn="@ + val_text(list[5]) + "|aura="@ + val_text(list[6])
                + "|hrothgar="@ + val_text(list[7]) + "|viera="@ + val_text(list[8]) + "}}"@), Out::<()>::Ret(())),
        (list[0] matches Val::U32(u) && u < list.len())
            ==> switch_effect(list, st) == (write_st(st, val_text(list[list[0]->U32_0 as int])), Out::<()>::Ret(())),
        (list[0] matches Val::Text(v) && v != "<Global(70)>"@ && v != "<Global(71)>"@) && list.len() == 2
            ==> switch_effect(list, st) == (write_st(st, "<Switch("@ + list[0]->Text_0 + ")><Case(0)>"@
                + val_text(list[1]) + "</Case></Switch>"@), Out::<()>::Ret(())),
{
    reveal_strlit("<Global(70)>");
    reveal_strlit("<Global(71)>");
    assert("<Global(70)>"@[9] != "<Global(71)>"@[9]);
    if list.len() == 2 {
        let vs = list.drop_first();
        reveal_with_fuel(cases_text, 2);
        assert(vs.drop_last() =~= Seq::<Val>::empty());
        reveal_strlit("0");
        assert(decimal(0) == seq!['0']);
        assert("0"@ =~= seq!['0']);
        assert forall|v: Seq<char>| ("<Switch("@ + v + ")>"@ + (Seq::<char>::empty() + "<Case("@ + decimal(0) + ")>"@
            + val_text(vs.last()) + "</Case>"@) + "</Switch>"@) =~= ("<Switch("@ + v + ")><Case(0)>"@
            + val_text(list[1]) + "</Case></Switch>"@) by {
            reveal_strlit("<Switch(");
            reveal_strlit(")>");
            reveal_strlit("<Case(");
            reveal_strlit("</Case>");
            reveal_strlit("</Switch>");
            reveal_strlit(")><Case(0)>");
            reveal_strlit("</Case></Switch>");
        }
    }
}


/// A foreground colour type opens the colour that its number stands for,
/// and the number zero closes the colour that is open, with that colour's
/// markup: green, yellow, orange and the companion colour as `colorize`
/// templates with one, two, three and two backquotes; white, Ascian,
/// adjusted, quest-sync and hint colours as spans of their classes.
pub proof fn law_foreground_colour_types(v: u32, tag: Seq<char>, st: StateView)
    ensures
        v == 504 || v == 505 ==> color_type_effect(ColorUsage::Foreground, tag, Val::U32(v), st).writer
            == (WriterView { buffer: st.writer.buffer + "{{colorize|`"@, color_category: ColorCategory::Green, ..st.writer }),
        v == 506 || v == 507 ==> color_type_effect(ColorUsage::Foreground, tag, Val::U32(v), st).writer
            == (WriterView { buffer: st.writer.buffer + "{{colorize|``"@, color_category: ColorCategory::Yellow, ..st.writer }),
        v == 500 || v == 501 ==> color_type_effect(ColorUsage::Foreground, tag, Val::U32(v), st).writer
            == (WriterView { buffer: st.writer.buffer + "{{colorize|```"@, color_category: ColorCategory::Orange, ..st.writer }),
        v == 571 || v == 572 ==> color_type_effect(ColorUsage::Foreground, tag, Val::U32(v), st).writer
            == (WriterView { buffer: st.writer.buffer + "<span class=\"color-cosmicquest\">"@, color_category: ColorCategory::White, ..st.writer }),
        v == 547 ==> color_type_effect(ColorUsage::Foreground, tag, Val::U32(v), st).writer
            == (WriterView { buffer: st.writer.buffer + "<span class=\"color-ascian\">"@, color_category: ColorCategory::Ascian, ..st.writer }),
        v == 548 ==> color_type_effect(ColorUsage::Foreground, tag, Val::U32(v), st).writer
            == (WriterView { buffer: st.writer.buffer + "{{colorize|``"@, color_category: ColorCategory::Accompany, ..st.writer }),
        v == 533 || v == 534 ==> color_type_effect(ColorUsage::Foreground, tag, Val::U32(v), st).writer
            == (WriterView { buffer: st.writer.buffer + "<span class=\"color-adjusted\">"@, color_category: ColorCategory::Adjusted, ..st.writer }),
        v == 508 || v == 509 ==> color_type_effect(ColorUsage::Foreground, tag, Val::U32(v), st).writer
            == (WriterView { buffer: st.writer.buffer + "<span class=\"color-questsync\">"@, color_category: ColorCategory::QuestSync, ..st.writer }),
        v == 582 || v == 581 ==> color_type_effect(ColorUsage::Foreground, tag, Val::U32(v), st).writer
            == (WriterView { buffer: st.writer.buffer + "<span class=\"color-hint\">"@, color_category: ColorCategory::Hint, ..st.writer }),
        v == 0 && st.writer.color_category == ColorCategory::Green ==> color_type_effect(ColorUsage::Foreground, tag,
            Val::U32(v), st).writer == (WriterView { buffer: st.writer.buffer + "`}}"@, color_category: ColorCategory::NoColor,
            ..st.writer }),
        v == 0 && st.writer.color_category == ColorCategory::Yellow ==> color_type_effect(ColorUsage::Foreground, tag,
            Val::U32(v), st).writer == (WriterView { buffer: st.writer.buffer + "``}}"@, color_category: ColorCategory::NoColor,
            ..st.writer }),
        v == 0 && st.writer.color_category == ColorCategory::Orange ==> color_type_effect(ColorUsage::Foreground, tag,
            Val::U32(v), st).writer == (WriterView { buffer: st.writer.buffer + "```}}"@, color_category: ColorCategory::NoColor,
            ..st.writer }),
        v == 0 && st.writer.color_category == ColorCategory::White ==> color_type_effect(ColorUsage::Foreground, tag,
            Val::U32(v), st).writer == (WriterView { buffer: st.writer.buffer + "</span>"@, color_category: ColorCategory::NoColor,
            ..st.writer }),
        v == 0 && st.writer.color_category == ColorCategory::Ascian ==> color_type_effect(ColorUsage::Foreground, tag,
            Val::U32(v), st).writer == (WriterView { buffer: st.writer.buffer + "</span>"@, color_category: ColorCategory::NoColor,
            ..st.writer }),
        v == 0 && st.writer.color_category == ColorCategory::Accompany ==> color_type_effect(ColorUsage::Foreground, tag,
            Val::U32(v), st).writer == (WriterView { buffer: st.writer.buffer + "``}}"@, color_category: ColorCategory::NoColor,
            ..st.writer }),
        v == 0 && st.writer.color_category == ColorCategory::Adjusted ==> color_type_effect(ColorUsage::Foreground, tag,
            Val::U32(v), st).writer == (WriterView { buffer: st.writer.buffer + "</span>"@, color_category: ColorCategory::NoColor,
            ..st.writer }),
        v == 0 && st.writer.color_category == ColorCategory::QuestSync ==> color_type_effect(ColorUsage::Foreground, tag,
            Val::U32(v), st).writer == (WriterView { buffer: st.writer.buffer + "</span>"@, color_category: ColorCategory::NoColor,
            ..st.writer }),
        v == 0 && st.writer.color_category == ColorCategory::Hint ==> color_type_effect(ColorUsage::Foreground, tag,
            Val::U32(v), st).writer == (WriterView { buffer: st.writer.buffer + "</span>"@, color_category: ColorCategory::NoColor,
            ..st.writer }),
        v == 0 && st.writer.color_category == ColorCategory::NoColor
            ==> color_type_effect(ColorUsage::Foreground, tag, Val::U32(v), st) == st,
        category_of(v) is Unknown ==> color_type_effect(ColorUsage::Foreground, tag, Val::U32(v), st)
            == write_st(st, "<"@ + tag + "("@ + decimal(v as nat) + ")>"@),
{
    let w = color_type_effect(ColorUsage::Foreground, tag, Val::U32(v), st).writer;
    if v == 0 && st.writer.color_category == ColorCategory::NoColor {
        assert(w.buffer =~= st.writer.buffer);
    }
}

/// Colour types for edges and shadows draw nothing: known numbers write no
/// markup.
pub proof fn law_edge_colour_types(v: u32, tag: Seq<char>, st: StateView)
    requires
        !(category_of(v) is Unknown),
    ensures
        color_type_effect(ColorUsage::Edge, tag, Val::U32(v), st).writer.buffer == st.writer.buffer,
{
}

/// Bold and italic are switched with the wiki's quote marks, three for
/// bold and two for italic, written where the style changes; outline and
/// shadow write nothing.
pub proof fn law_style_markup(w: WriterView, enabled: bool)
    ensures
        enabled != w.is_bold ==> styled(w, Style::Bold, enabled).buffer == w.buffer + "'''"@
            && styled(w, Style::Bold, enabled).is_bold == enabled,
        enabled != w.is_italic ==> styled(w, Style::Italic, enabled).buffer == w.buffer + "''"@
            && styled(w, Style::Italic, enabled).is_italic == enabled,
        styled(w, Style::Outline, enabled).buffer == w.buffer,
        styled(w, Style::Shadow, enabled).buffer == w.buffer,
{
}


/// The fixed-text macros write their text and take no arguments: a
/// non-breaking space as `&nbsp;`, a hyphen, a soft hyphen (U+00AD) and a
/// line break as `<br>`.
pub proof fn law_fixed_text_macros(args: Args, st: StateView)
    ensures
        run_macro(MacroKind::NonBreakingSpace, args, st) == (write_st(st, "&nbsp;"@), args, Out::<()>::Ret(())),
        run_macro(MacroKind::Hyphen, args, st) == (write_st(st, "-"@), args, Out::<()>::Ret(())),
        run_macro(MacroKind::SoftHyphen, args, st) == (write_st(st, "\u{00AD}"@), args, Out::<()>::Ret(())),
        run_macro(MacroKind::NewLine, args, st) == (write_st(st, "<br>"@), args, Out::<()>::Ret(())),
        run_macro(MacroKind::Other(0), args, st) == (st, args, Out::<()>::Ret(())),
{
    reveal(run_macro);
}

/// Ruby text is written as an HTML ruby element: the base text, then the
/// annotation in `rt`, with fallback brackets in `rp`.
pub proof fn law_ruby(args: Args, st: StateView, text: Seq<char>, over: Seq<char>)
    requires
        take_str(args, st).2 == Out::Ret(text),
        take_str(take_str(args, st).1, take_str(args, st).0).2 == Out::Ret(over),
    ensures
        ruby_macro(args, st) == ({
            let s1 = take_str(args, st);
            let s2 = take_str(s1.1, s1.0);
            (write_st(s2.0, "<ruby>"@ + text + "<rp>(</rp><rt>"@ + over + "</rt><rp>)</rp></ruby>"@), s2.1,
                Out::<()>::Ret(()))
        }),
{
    reveal(ruby_macro);
    reveal(take_str);
    lemma_take_consumes_one(args, st);
    reveal_strlit("</rt><rp>)</rp>");
    reveal_strlit("</ruby>");
    reveal_strlit("</rt><rp>)</rp></ruby>");
    assert("</rt><rp>)</rp>"@ + "</ruby>"@ =~= "</rt><rp>)</rp></ruby>"@);
    assert("<ruby>"@ + text + "<rp>(</rp><rt>"@ + over + "</rt><rp>)</rp>"@ + "</ruby>"@
        =~= "<ruby>"@ + text + "<rp>(</rp><rt>"@ + over + "</rt><rp>)</rp></ruby>"@);
}

/// Hexadecimal digits: 0 to 9 as the decimal digits, 10 to 15 as the
/// capital letters A to F.
pub proof fn law_hex_digits(d: nat)
    requires
        d < 16,
    ensures
        d < 10 ==> hex_char(d) as u32 == '0' as u32 + d,
        d >= 10 ==> hex_char(d) as u32 == 'A' as u32 + (d - 10),
{
}

/// A colour number is written as `#RRGGBB` from its red, green and blue
/// bytes (the top byte, alpha, is not written); a colour macro writes it in
/// a tag named after the macro, and the stacked colour closes that tag.
pub proof fn law_colour_macros(alpha: u8, red: u8, green: u8, blue: u8, args: Args, st: StateView)
    ensures
        color_hex((alpha * 16777216 + red * 65536 + green * 256 + blue) as u32)
            == "#"@ + hex2(red) + hex2(green) + hex2(blue),
        take_value(args, st).2 == Out::Ret(Val::Text("<StackColor>"@)) ==> color_macro(MacroKind::Color, args, st)
            == (write_st(take_value(args, st).0, "</Color>"@), take_value(args, st).1, Out::<()>::Ret(())),
        take_value(args, st).2 == Out::Ret(Val::Text("<StackColor>"@)) ==> color_macro(MacroKind::EdgeColor, args, st)
            == (write_st(take_value(args, st).0, "</EdgeColor>"@), take_value(args, st).1, Out::<()>::Ret(())),
        take_value(args, st).2 == Out::Ret(Val::Text("<StackColor>"@)) ==> color_macro(MacroKind::ShadowColor, args, st)
            == (write_st(take_value(args, st).0, "</ShadowColor>"@), take_value(args, st).1, Out::<()>::Ret(())),
        (take_value(args, st).2 is Ret && take_value(args, st).2->Ret_0 is U32) ==> color_macro(MacroKind::Color, args, st)
            == (write_st(take_value(args, st).0, "<Color("@ + color_hex(take_value(args, st).2->Ret_0->U32_0) + ")>"@),
                take_value(args, st).1,
                Out::<()>::Ret(())),
{
    let c: int = alpha * 16777216 + red * 65536 + green * 256 + blue;
    assert(0 <= c < 4294967296) by (nonlinear_arith)
        requires
            c == alpha * 16777216 + red * 65536 + green * 256 + blue,
            alpha < 256,
            red < 256,
            green < 256,
            blue < 256,
    ;
    assert((c / 65536) % 256 == red && (c / 256) % 256 == green && c % 256 == blue) by (nonlinear_arith)
        requires
            c == alpha * 16777216 + red * 65536 + green * 256 + blue,
            alpha < 256,
            red < 256,
            green < 256,
            blue < 256,
    ;
    reveal(color_macro);
    reveal_strlit("<StackColor>");
    reveal_strlit("#");
    assert(("<StackColor>"@).len() == 12);
    assert forall|t: Seq<char>| #![auto] ("</"@ + t + ">"@) == ("</"@ + t + ">"@) by {}
    reveal_strlit("</");
    reveal_strlit(">");
    reveal_strlit("Color");
    reveal_strlit("EdgeColor");
    reveal_strlit("ShadowColor");
    reveal_strlit("</Color>");
    reveal_strlit("</EdgeColor>");
    reveal_strlit("</ShadowColor>");
    reveal_strlit("<");
    reveal_strlit("(");
    reveal_strlit(")>");
    reveal_strlit("<Color(");
    assert("</"@ + "Color"@ + ">"@ =~= "</Color>"@);
    assert("</"@ + "EdgeColor"@ + ">"@ =~= "</EdgeColor>"@);
    assert("</"@ + "ShadowColor"@ + ">"@ =~= "</ShadowColor>"@);
    if let Out::Ret(Val::U32(cc)) = take_value(args, st).2 {
        assert(color_hex(cc).len() == 7);
        assert("<"@ + "Color"@ + "("@ + color_hex(cc) + ")>"@ =~= "<Color("@ + color_hex(cc) + ")>"@);
    }
}

/// References to parameters are written with their numbers: a global
/// number `n` as `<Global(n)>`, a local one as `<Local(n)>`; an expression
/// of an unassigned type byte `b` as `M#` and `b` in two hexadecimal
/// digits; the stacked colour as `<StackColor>`.
pub proof fn law_parameter_texts(n: u32, b: u8, st: StateView)
    ensures
        eval(Expression::GlobalNumber(Box::new(Expression::U32(n))), st)
            == (st, Out::Ret(Val::Text("<Global("@ + decimal(n as nat) + ")>"@))),
        eval(Expression::GlobalString(Box::new(Expression::U32(n))), st)
            == (st, Out::Ret(Val::Text("<Global("@ + decimal(n as nat) + ")>"@))),
        eval(Expression::LocalNumber(Box::new(Expression::U32(n))), st)
            == (st, Out::Ret(Val::Text("<Local("@ + decimal(n as nat) + ")>"@))),
        eval(Expression::LocalString(Box::new(Expression::U32(n))), st)
            == (st, Out::Ret(Val::Text("<Local("@ + decimal(n as nat) + ")>"@))),
        eval(Expression::Unknown(b), st) == (st, Out::Ret(Val::Text("M#"@ + hex2(b)))),
        eval(Expression::StackColor, st) == (st, Out::Ret(Val::Text("<StackColor>"@))),
{
    reveal_with_fuel(eval, 2);
}

/// The clock readings of a timestamp: seconds, minutes and hours of the
/// day by division, no milliseconds, and the weekday counted from Sunday
/// as 1 (1970-01-01 was a Thursday).
pub proof fn law_clock_readings(ts: u32)
    ensures
        time_field_value(TimeField::Millisecond, ts) == 0,
        time_field_value(TimeField::Second, ts) == ts % 60,
        time_field_value(TimeField::Minute, ts) == (ts / 60) % 60,
        time_field_value(TimeField::Hour, ts) == (ts / 3600) % 24,
        time_field_value(TimeField::Weekday, ts) == ((ts / 86400) + 4) % 7 + 1,
{
}

/// Setting the clock: an unknown value sets it to the game's epoch
/// (1377590400); a number sets it to that number.
pub proof fn law_set_time(args: Args, st: StateView)
    ensures
        take_value(args, st).2 == Out::Ret(Val::Unknown) ==> set_time_macro(args, st).0.time == 1377590400,
        (take_value(args, st).2 is Ret && take_value(args, st).2->Ret_0 is U32) ==> set_time_macro(args, st).0.time
            == take_value(args, st).2->Ret_0->U32_0,
{
    reveal(set_time_macro);
}

/// In the tidied whole-string formatting, each payload that failed to
/// decode is written as `<Error: message>`, text that is not valid UTF-8 as
/// `<Error: unicode decode fail>`, and formatting goes on with the next
/// payload.
pub proof fn law_payload_errors(e: SeStringError, rest: Seq<Result<Payload, SeStringError>>, st: StateView)
    ensures
        format_top(seq![Err(e)] + rest, st) == format_top(rest, write_st(st, "<Error: "@ + error_message(e) + ">"@)),
        format_top(seq![Ok(Payload::Text(Err(e)))] + rest, st)
            == format_top(rest, write_st(st, "<Error: unicode decode fail>"@)),
{
    assert((seq![Err(e)] + rest).drop_first() =~= rest);
    assert((seq![Ok(Payload::Text(Err(e)))] + rest).drop_first() =~= rest);
}


/// A sheet reference to a numbered row is replaced by the text of the cell
/// where the lookup table knows it; where the cell holds no text, the
/// reference is written out as `<Sheet(sheet,row,column)>`, with the
/// column's name (its number for `InstanceContent`).
pub proof fn law_sheet_cells(list: Seq<Val>, st: StateView, col: Seq<char>, r: u32)
    requires
        list.len() == 3,
        find_column(st.lookups.columns, val_text(list[0]), val_number(list[2])) == Some(Some(col)),
        parse_u32_spec(val_text(list[1])) == Some(r),
    ensures
        find_cell(st.lookups.cells, val_text(list[0]), r, col) matches Some(Some(text))
            ==> sheet_effect(list, st) == write_st(st, text),
        find_cell(st.lookups.cells, val_text(list[0]), r, col) == Some(None::<Seq<char>>)
            && val_text(list[0]) != "InstanceContent"@
            ==> sheet_effect(list, st) == write_st(st, "<Sheet("@ + val_text(list[0]) + ","@ + val_text(list[1])
                + ","@ + col + ")>"@),
        find_cell(st.lookups.cells, val_text(list[0]), r, col) == Some(None::<Seq<char>>)
            && val_text(list[0]) == "InstanceContent"@
            ==> sheet_effect(list, st) == write_st(st, "<Sheet("@ + val_text(list[0]) + ","@ + val_text(list[1])
                + ","@ + decimal(val_number(list[2]) as nat) + ")>"@),
{
}

/// A written-out macro is `<tag(a,b,...)>`: its tag, then the texts of its
/// evaluated arguments joined with commas.
pub proof fn law_written_out_macros(tag: Seq<char>, args: Args, st: StateView, a: Val, b: Val)
    ensures
        take_value_list(args, st).2 == Out::Ret(Seq::<Val>::empty()) ==> generic_macro(tag, args, st)
            == (write_st(take_value_list(args, st).0, "<"@ + tag + "()>"@), take_value_list(args, st).1,
                Out::<()>::Ret(())),
        take_value_list(args, st).2 == Out::Ret(seq![a]) ==> generic_macro(tag, args, st)
            == (write_st(take_value_list(args, st).0, "<"@ + tag + "("@ + val_text(a) + ")>"@),
                take_value_list(args, st).1, Out::<()>::Ret(())),
        take_value_list(args, st).2 == Out::Ret(seq![a, b]) ==> generic_macro(tag, args, st)
            == (write_st(take_value_list(args, st).0, "<"@ + tag + "("@ + val_text(a) + ","@ + val_text(b) + ")>"@),
                take_value_list(args, st).1, Out::<()>::Ret(())),
{
    reveal(generic_macro);
    reveal_with_fuel(join_texts, 3);
    reveal_strlit("(");
    reveal_strlit(")>");
    reveal_strlit("()>");
    assert("<"@ + tag + "("@ + Seq::<char>::empty() + ")>"@ =~= "<"@ + tag + "()>"@);
    assert(seq![a, b].drop_last() =~= seq![a]);
    assert(seq![a].drop_last() =~= Seq::<Val>::empty());
    assert("<"@ + tag + "("@ + (val_text(a) + ","@ + val_text(b)) + ")>"@ =~= "<"@ + tag + "("@ + val_text(a) + ","@
        + val_text(b) + ")>"@);
}

/// A macro that fails is followed in the tidied whole-string formatting by
/// `<Error: macro decode fail (message, kind)>`, and formatting goes on
/// with the next payload.
pub proof fn law_macro_errors(m: MacroPayload, rest: Seq<Result<Payload, SeStringError>>, st: StateView, e: SeStringError)
    requires
        format_macro(m, st).1 == Out::<()>::Fail(e),
    ensures
        format_top(seq![Ok(Payload::Macro(m))] + rest, st) == format_top(rest, write_st(format_macro(m, st).0,
            "<Error: macro decode fail ("@ + error_message(e) + ", "@ + kind_name(m.kind) + ")>"@)),
{
    assert((seq![Ok(Payload::Macro(m))] + rest).drop_first() =~= rest);
}


proof fn lemma_first_index_after(a: Seq<char>, b: Seq<char>, c: char)
    requires
        forall|i: int| 0 <= i < a.len() ==> a[i] != c,
    ensures
        first_index(a + b, c) == (match first_index(b, c) {
            Some(i) => Some(a.len() + i),
            None => None::<int>,
        }),
    decreases a.len(),
{
    if a.len() > 0 {
        assert((a + b).drop_first() =~= a.drop_first() + b);
        assert((a + b)[0] == a[0]);
        lemma_first_index_after(a.drop_first(), b, c);
    } else {
        assert(a + b =~= b);
    }
}

/// Which operator a condition is read with, from the operator name it
/// starts with: each name stands for itself, except that a condition
/// starting with `LessThanOrEqualTo` is read with `LessThan`, which is tried
/// first and is a prefix of it.
proof fn lemma_operator_read(op: Seq<char>, rest: Seq<char>)
    requires
        operator_names().contains(op),
        rest.len() > 0,
        rest[0] == '(',
    ensures
        first_operator_from(op + rest, operator_names()) == Some(if op == LE@ { LT@ } else { op }),
{
    reveal_strlit("GreaterThanOrEqualTo");
    reveal_strlit("GreaterThan");
    reveal_strlit("LessThanOrEqualTo");
    reveal_strlit("LessThan");
    reveal_strlit("Equal");
    reveal_strlit("NotEqual");
    lemma_operator_names_distinct();
    let ops = operator_names();
    let s = op + rest;
    reveal_with_fuel(first_operator_from, 7);
    assert(op.is_prefix_of(s)) by {
        assert(s.subrange(0, op.len() as int) =~= op);
    }
    assert(s[0] == op[0]);
    if op == GT@ {
        assert(s[11] == '(');
        lemma_not_prefix(GE@, s, 11);
    } else if op == LT@ || op == LE@ {
        lemma_not_prefix(GE@, s, 0);
        lemma_not_prefix(GT@, s, 0);
        if op == LE@ {
            assert(s.subrange(0, LT@.len() as int) =~= LT@);
        }
    } else if op == EQ@ {
        lemma_not_prefix(GE@, s, 0);
        lemma_not_prefix(GT@, s, 0);
        lemma_not_prefix(LT@, s, 0);
        lemma_not_prefix(LE@, s, 0);
    } else if op == NE@ {
        lemma_not_prefix(GE@, s, 0);
        lemma_not_prefix(GT@, s, 0);
        lemma_not_prefix(LT@, s, 0);
        lemma_not_prefix(LE@, s, 0);
        lemma_not_prefix(EQ@, s, 0);
    }
}

/// A sequence that differs from another at a position of both is no prefix
/// of it.
proof fn lemma_not_prefix(q: Seq<char>, s: Seq<char>, t: int)
    requires
        0 <= t < q.len(),
        t < s.len(),
        q[t] != s[t],
    ensures
        !q.is_prefix_of(s),
{
    if q.is_prefix_of(s) {
        assert(s.subrange(0, q.len() as int)[t] == s[t]);
    }
}

/// A condition `op(left,right)` whose left operand holds no `,` is read as a comparison with exactly that left and right operand
/// (the right one may hold anything); its operator is `op`, except that
/// `LessThanOrEqualTo` is read as `LessThan`.
pub proof fn law_comparison_parts(op: Seq<char>, x: Seq<char>, y: Seq<char>)
    requires
        operator_names().contains(op),
        forall|i: int| 0 <= i < x.len() ==> x[i] != ',',
    ensures
        comparison(op + "("@ + x + ","@ + y + ")"@) == Comparison::Parts(if op == LE@ { LT@ } else { op }, x, y),
{
    reveal_strlit("GreaterThanOrEqualTo");
    reveal_strlit("GreaterThan");
    reveal_strlit("LessThanOrEqualTo");
    reveal_strlit("LessThan");
    reveal_strlit("Equal");
    reveal_strlit("NotEqual");
    reveal_strlit("(");
    reveal_strlit(",");
    reveal_strlit(")");
    let ops = operator_names();
    let k = choose|k: int| 0 <= k < ops.len() && ops[k] == op;
    assert(forall|i: int| 0 <= i < op.len() ==> op[i] != '(' && op[i] != ',');
    let tail = "("@ + x + ","@ + y + ")"@;
    let cond = op + "("@ + x + ","@ + y + ")"@;
    assert(cond =~= op + tail);
    assert(tail[0] == '(');
    lemma_operator_read(op, tail);
    // The first `(` follows the operator name.
    lemma_first_index_after(op, tail, '(');
    assert(first_index(tail, '(') == Some(0int));
    // The first `,` follows the left operand.
    let front = op + "("@ + x;
    assert(forall|i: int| 0 <= i < front.len() ==> front[i] != ',') by {
        assert forall|i: int| 0 <= i < front.len() implies front[i] != ',' by {
            if i < op.len() {
                assert(front[i] == op[i]);
            } else if i == op.len() {
                assert(front[i] == '(');
            } else {
                assert(front[i] == x[i - op.len() - 1]);
            }
        }
    }
    let back = ","@ + y + ")"@;
    assert(cond =~= front + back);
    lemma_first_index_after(front, back, ',');
    assert(back[0] == ',');
    assert(first_index(back, ',') == Some(0int));
    assert(cond.last() == ')');
    assert(cond.subrange(op.len() + 1int, front.len() as int) =~= x);
    assert(cond.subrange(front.len() + 1int, cond.len() - 1) =~= y);
}

/// An `If` macro whose arguments evaluate to a grand company condition
/// (`GreaterThan(<Global(52)>,0)`, 53 or 54), the company's title
/// placeholder alone as yes-branch and an empty no-branch writes that title
/// bare, after the arguments are evaluated.
pub proof fn law_grand_company_title_ifs(args: Args, st: StateView, s1: StateView, a1: Args, list: Seq<Val>)
    requires
        take_value_list(args, st) == (s1, a1, Out::Ret(list)),
        list.len() >= 3,
        val_text(list[2]).len() == 0,
    ensures
        val_text(list[0]) == "GreaterThan(<Global(52)>,0)"@ && val_text(list[1]) == "[Limsa GC Title]"@
            ==> if_macro("If"@, args, st) == (write_st(s1, "[Limsa GC Title]"@), a1, Out::<()>::Ret(())),
        val_text(list[0]) == "GreaterThan(<Global(53)>,0)"@ && val_text(list[1]) == "[Gridania GC Title]"@
            ==> if_macro("If"@, args, st) == (write_st(s1, "[Gridania GC Title]"@), a1, Out::<()>::Ret(())),
        val_text(list[0]) == "GreaterThan(<Global(54)>,0)"@ && val_text(list[1]) == "[Ul'dah GC Title]"@
            ==> if_macro("If"@, args, st) == (write_st(s1, "[Ul'dah GC Title]"@), a1, Out::<()>::Ret(())),
{
    reveal_strlit("GreaterThan");
    reveal_strlit("(");
    reveal_strlit(",");
    reveal_strlit(")");
    reveal_strlit("0");
    reveal_strlit("<Global(52)>");
    reveal_strlit("<Global(53)>");
    reveal_strlit("<Global(54)>");
    reveal_strlit("GreaterThan(<Global(52)>,0)");
    reveal_strlit("GreaterThan(<Global(53)>,0)");
    reveal_strlit("GreaterThan(<Global(54)>,0)");
    reveal_strlit("[Limsa GC Title]");
    reveal_strlit("[Gridania GC Title]");
    reveal_strlit("[Ul'dah GC Title]");
    let cond = val_text(list[0]);
    let yes = val_text(list[1]);
    let no = val_text(list[2]);
    lemma_operator_names_distinct();
    assert(operator_names()[1] == GT@);
    assert(forall|i: int| 0 <= i < "<Global(52)>"@.len() ==> "<Global(52)>"@[i] != ',');
    assert(forall|i: int| 0 <= i < "<Global(53)>"@.len() ==> "<Global(53)>"@[i] != ',');
    assert(forall|i: int| 0 <= i < "<Global(54)>"@.len() ==> "<Global(54)>"@[i] != ',');
    reveal(if_macro);
    assert(if_macro("If"@, args, st) == (if_effect("If"@, cond, yes, no, s1).0, a1, if_effect("If"@, cond, yes, no, s1).1));
    assert(cond == "GreaterThan(<Global(52)>,0)"@ && yes == "[Limsa GC Title]"@ ==> if_effect("If"@, cond, yes, no, s1)
        == (write_st(s1, "[Limsa GC Title]"@), Out::<()>::Ret(()))) by {
        if cond == "GreaterThan(<Global(52)>,0)"@ && yes == "[Limsa GC Title]"@ {
            let x = "<Global(52)>"@;
            assert(cond =~= GT@ + "("@ + x + ","@ + "0"@ + ")"@);
            law_comparison_parts(GT@, x, "0"@);
            law_grand_company_conditions(cond, x, yes, no, s1);
        }
    }
    assert(cond == "GreaterThan(<Global(53)>,0)"@ && yes == "[Gridania GC Title]"@ ==> if_effect("If"@, cond, yes, no, s1)
        == (write_st(s1, "[Gridania GC Title]"@), Out::<()>::Ret(()))) by {
        if cond == "GreaterThan(<Global(53)>,0)"@ && yes == "[Gridania GC Title]"@ {
            let x = "<Global(53)>"@;
            assert(cond =~= GT@ + "("@ + x + ","@ + "0"@ + ")"@);
            law_comparison_parts(GT@, x, "0"@);
            law_grand_company_conditions(cond, x, yes, no, s1);
        }
    }
    assert(cond == "GreaterThan(<Global(54)>,0)"@ && yes == "[Ul'dah GC Title]"@ ==> if_effect("If"@, cond, yes, no, s1)
        == (write_st(s1, "[Ul'dah GC Title]"@), Out::<()>::Ret(()))) by {
        if cond == "GreaterThan(<Global(54)>,0)"@ && yes == "[Ul'dah GC Title]"@ {
            let x = "<Global(54)>"@;
            assert(cond =~= GT@ + "("@ + x + ","@ + "0"@ + ")"@);
            law_comparison_parts(GT@, x, "0"@);
            law_grand_company_conditions(cond, x, yes, no, s1);
        }
    }
}

} // verus!
