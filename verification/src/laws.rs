//! Properties that hold of the formatter across its functions and for all
//! inputs.

use vstd::prelude::*;
use vstd::arithmetic::div_mod::{lemma_fundamental_div_mod, lemma_div_plus_one};
use crate::clock::{hour_of, weekday_from_sunday};
use crate::color_category::ColorCategory;
use crate::semantics::{
    eval, eval_sestring, format_macro, generic_macro, reset_day_offset, reset_time_effect, run_macro,
    unknown_tag, Out,
};
use crate::sestring::{Expression, MacroKind, MacroPayload};
use crate::state::StateView;
use crate::string_process::{clean_text, cleaned, fragment_matches, pattern_texts, replacement_texts};
use crate::text::{decimal, digit_char, digit_value, digits_value, parse_u32_spec};
use crate::value::{val_number, val_text, Val};
use crate::write::{ColorUsage, Style};
use crate::writer::{color_close, color_open, color_popped, color_pushed, reset, styled, WriterView};
use vstd::utf8::{decode_utf8, encode_utf8_decode_utf8};

verus! {

/// Resetting the styles leaves the writer plain: not bold, not italic,
/// outline on and no colour open.
pub proof fn law_reset_leaves_plain(w: WriterView)
    ensures
        !reset(w).is_bold,
        !reset(w).is_italic,
        reset(w).is_edge,
        reset(w).color_category == ColorCategory::NoColor,
{
}

/// Resetting the styles a second time changes nothing.
pub proof fn law_reset_idempotent(w: WriterView)
    ensures
        reset(reset(w)) == reset(w),
{
    let r = reset(w);
    assert(reset(r).buffer =~= r.buffer);
}

/// Switching a style to the same setting twice is switching it once: no
/// markup is written twice.
pub proof fn law_style_switch_idempotent(w: WriterView, style: Style, enabled: bool)
    ensures
        styled(styled(w, style, enabled), style, enabled) == styled(w, style, enabled),
{
}

/// Opening a foreground colour and closing it again writes exactly the
/// colour's opening and closing markup and leaves no colour open; edge and
/// shadow colours write nothing and change nothing.
pub proof fn law_color_push_then_pop(w: WriterView, usage: ColorUsage, color: ColorCategory)
    ensures
        usage == ColorUsage::Foreground ==> {
            let w2 = color_popped(color_pushed(w, usage, color), usage);
            &&& w2.buffer == w.buffer + color_open(color) + color_close(color)
            &&& w2.color_category == ColorCategory::NoColor
        },
        usage != ColorUsage::Foreground ==> color_popped(color_pushed(w, usage, color), usage) == w,
{
    if usage == ColorUsage::Foreground {
        let w2 = color_popped(color_pushed(w, usage, color), usage);
        assert(w2.buffer =~= w.buffer + color_open(color) + color_close(color));
    }
}

proof fn lemma_digit_round_trip(d: nat)
    requires
        d < 10,
    ensures
        digit_value(digit_char(d)) == Some(d),
{
}

proof fn lemma_decimal_digits(n: nat)
    ensures
        digits_value(decimal(n)) == Some(n),
        decimal(n).len() > 0,
        digit_value(decimal(n)[0]) is Some,
    decreases n,
{
    let s = decimal(n);
    if n < 10 {
        lemma_digit_round_trip(n);
        assert(s.drop_last() =~= Seq::<char>::empty());
        assert(digits_value(s.drop_last()) == Some(0nat));
        assert(s.last() == digit_char(n));
    } else {
        lemma_decimal_digits(n / 10);
        lemma_digit_round_trip(n % 10);
        lemma_fundamental_div_mod(n as int, 10);
        assert(s.drop_last() =~= decimal(n / 10));
        assert(s.last() == digit_char(n % 10));
        assert(decimal(n / 10)[0] == s[0]);
    }
}

/// A number written out in decimal reads back as itself: the text of a
/// number value is read as that number.
pub proof fn law_number_text_round_trip(n: u32)
    ensures
        parse_u32_spec(decimal(n as nat)) == Some(n),
        val_number(Val::Text(val_text(Val::U32(n)))) == n,
{
    lemma_decimal_digits(n as nat);
}

/// Where the matcher reports no fragment in a text, tidying gives the text
/// back unchanged.
pub proof fn law_clean_without_fragments(input: Seq<char>)
    requires
        fragment_matches(pattern_texts(), input) == Some(Seq::<(usize, usize, usize)>::empty()),
    ensures
        clean_text(input) == input,
{
    let bytes = vstd::utf8::encode_utf8(input);
    assert(bytes.subrange(0, bytes.len() as int) =~= bytes);
    encode_utf8_decode_utf8(input);
}

/// Evaluating an expression never writes and never moves the clock: only
/// the lookup table can change.
pub proof fn law_evaluation_keeps_writer_and_clock(e: Expression, st: StateView)
    ensures
        eval(e, st).0.writer == st.writer,
        eval(e, st).0.time == st.time,
    decreases e,
{
    reveal(eval);
    reveal(eval_sestring);
    match e {
        Expression::GlobalNumber(i) => law_evaluation_keeps_writer_and_clock(*i, st),
        Expression::GlobalString(i) => law_evaluation_keeps_writer_and_clock(*i, st),
        Expression::LocalNumber(i) => law_evaluation_keeps_writer_and_clock(*i, st),
        Expression::LocalString(i) => law_evaluation_keeps_writer_and_clock(*i, st),
        Expression::Ge(l, r) => {
            law_evaluation_keeps_writer_and_clock(*l, st);
            law_evaluation_keeps_writer_and_clock(*r, eval(*l, st).0);
        },
        Expression::Gt(l, r) => {
            law_evaluation_keeps_writer_and_clock(*l, st);
            law_evaluation_keeps_writer_and_clock(*r, eval(*l, st).0);
        },
        Expression::Le(l, r) => {
            law_evaluation_keeps_writer_and_clock(*l, st);
            law_evaluation_keeps_writer_and_clock(*r, eval(*l, st).0);
        },
        Expression::Lt(l, r) => {
            law_evaluation_keeps_writer_and_clock(*l, st);
            law_evaluation_keeps_writer_and_clock(*r, eval(*l, st).0);
        },
        Expression::Eq(l, r) => {
            law_evaluation_keeps_writer_and_clock(*l, st);
            law_evaluation_keeps_writer_and_clock(*r, eval(*l, st).0);
        },
        Expression::Ne(l, r) => {
            law_evaluation_keeps_writer_and_clock(*l, st);
            law_evaluation_keeps_writer_and_clock(*r, eval(*l, st).0);
        },
        Expression::SeString(s) => {
            assert(eval(e, st) == eval_sestring(s, st));
        },
        _ => {},
    }
}


proof fn lemma_hour_after_whole_days(t: int, d: int)
    requires
        t >= 0,
        d >= 0,
    ensures
        hour_of(t + d * 86400) == hour_of(t),
{
    assert((t + d * 86400) / 3600 == t / 3600 + d * 24) by (nonlinear_arith)
        requires
            t >= 0,
            d >= 0,
    {
        lemma_fundamental_div_mod(t, 3600);
        lemma_fundamental_div_mod(t + d * 86400, 3600);
    }
    assert((t / 3600 + d * 24) % 24 == (t / 3600) % 24) by (nonlinear_arith)
        requires
            t >= 0,
            d >= 0,
    {
        lemma_fundamental_div_mod(t / 3600, 24);
        lemma_fundamental_div_mod(t / 3600 + d * 24, 24);
    }
}

proof fn lemma_set_hour(m: int, hour: int)
    requires
        m >= 0,
        0 <= hour < 24,
    ensures
        hour_of(m - hour_of(m) * 3600 + hour * 3600) == hour,
        m - hour_of(m) * 3600 + hour * 3600 >= 0,
{
    let q = m / 3600;
    let n = m - hour_of(m) * 3600 + hour * 3600;
    assert(n / 3600 == q - q % 24 + hour) by (nonlinear_arith)
        requires
            m >= 0,
            q == m / 3600,
            n == m - (q % 24) * 3600 + hour * 3600,
            0 <= hour < 24,
    {
        lemma_fundamental_div_mod(m, 3600);
        lemma_fundamental_div_mod(q, 24);
        lemma_fundamental_div_mod(n, 3600);
    }
    assert((q - q % 24 + hour) % 24 == hour) by (nonlinear_arith)
        requires
            q >= 0,
            0 <= hour < 24,
    {
        lemma_fundamental_div_mod(q, 24);
        lemma_fundamental_div_mod(q - q % 24 + hour, 24);
    }
}

/// Moving the clock to the next reset time never moves it back and lands
/// on the target hour; the writer and the lookup table stay as they were.
pub proof fn law_reset_time_moves_forward(st: StateView, hour: u32, weekday: Option<u32>)
    requires
        reset_time_effect(st, hour, weekday).1 is Ret,
    ensures
        reset_time_effect(st, hour, weekday).0.time >= st.time,
        hour_of(reset_time_effect(st, hour, weekday).0.time as int) == hour,
        reset_time_effect(st, hour, weekday).0.writer == st.writer,
        reset_time_effect(st, hour, weekday).0.lookups == st.lookups,
{
    let t = st.time as int;
    let d = reset_day_offset(st.time, hour, weekday);
    assert(d >= 0);
    let moved = t + d * 86400;
    assert(d * 86400 >= 0) by (nonlinear_arith)
        requires
            d >= 0,
    ;
    lemma_hour_after_whole_days(t, d);
    lemma_set_hour(moved, hour as int);
    assert(d >= 1 ==> d * 86400 >= 86400) by (nonlinear_arith);
}


/// The day of a time whose hour is replaced stays the same day.
proof fn lemma_set_hour_same_day(m: int, hour: int)
    requires
        m >= 0,
        0 <= hour < 24,
    ensures
        (m - hour_of(m) * 3600 + hour * 3600) / 86400 == m / 86400,
{
    let q = m / 3600;
    let n = m - hour_of(m) * 3600 + hour * 3600;
    assert(n / 86400 == m / 86400) by (nonlinear_arith)
        requires
            m >= 0,
            q == m / 3600,
            n == m - (q % 24) * 3600 + hour * 3600,
            0 <= hour < 24,
    {
        lemma_fundamental_div_mod(m, 3600);
        lemma_fundamental_div_mod(q, 24);
        lemma_fundamental_div_mod(m, 86400);
        lemma_fundamental_div_mod(n, 86400);
    }
}

/// With a weekday given, the clock moves to that weekday at the target
/// hour; the one exception is a target weekday that is today with the
/// target hour already passed, which moves to the next day.
pub proof fn law_reset_time_reaches_weekday(st: StateView, hour: u32, weekday: u32)
    requires
        reset_time_effect(st, hour, Some(weekday)).1 is Ret,
        weekday < 7,
        !(hour < hour_of(st.time as int) && weekday == weekday_from_sunday(st.time as int)),
    ensures
        weekday_from_sunday(reset_time_effect(st, hour, Some(weekday)).0.time as int) == weekday,
{
    let t = st.time as int;
    let wd = weekday_from_sunday(t);
    let d = reset_day_offset(st.time, hour, Some(weekday));
    assert(0 <= d < 7);
    assert((wd + d) % 7 == weekday);
    let moved = t + d * 86400;
    assert(moved / 86400 == t / 86400 + d) by (nonlinear_arith)
        requires
            t >= 0,
            0 <= d,
            moved == t + d * 86400,
    {
        lemma_fundamental_div_mod(t, 86400);
        lemma_fundamental_div_mod(moved, 86400);
    }
    lemma_set_hour_same_day(moved, hour as int);
    let day = t / 86400;
    assert((day + d + 4) % 7 == ((day + 4) % 7 + d) % 7) by (nonlinear_arith)
        requires
            day >= 0,
            d >= 0,
    {
        lemma_fundamental_div_mod(day + 4, 7);
        lemma_fundamental_div_mod(day + d + 4, 7);
        lemma_fundamental_div_mod((day + 4) % 7 + d, 7);
    }
}


/// The tag of the kinds of macro that are written out as they stand,
/// `<tag(arg,arg,...)>`: the kind's own name, `PlatformStr` for the
/// platform reference, `Macro_code` for another unassigned code.
pub open spec fn generic_tag(kind: MacroKind) -> Option<Seq<char>> {
    match kind {
        MacroKind::JaNoun => Some("JaNoun"@),
        MacroKind::EnNoun => Some("EnNoun"@),
        MacroKind::DeNoun => Some("DeNoun"@),
        MacroKind::FrNoun => Some("FrNoun"@),
        MacroKind::ChNoun => Some("ChNoun"@),
        MacroKind::Icon => Some("Icon"@),
        MacroKind::Icon2 => Some("Icon2"@),
        MacroKind::Caps => Some("Caps"@),
        MacroKind::Head => Some("Head"@),
        MacroKind::HeadAll => Some("HeadAll"@),
        MacroKind::LowerHead => Some("LowerHead"@),
        MacroKind::Lower => Some("Lower"@),
        MacroKind::Kilo => Some("Kilo"@),
        MacroKind::Digit => Some("Digit"@),
        MacroKind::Float => Some("Float"@),
        MacroKind::Key => Some("Key"@),
        MacroKind::Sec => Some("Sec"@),
        MacroKind::LevelPos => Some("LevelPos"@),
        MacroKind::Ordinal => Some("Ordinal"@),
        MacroKind::Fixed => Some("Fixed"@),
        MacroKind::Num => Some("Num"@),
        MacroKind::PcName => Some("PcName"@),
        MacroKind::Sound => Some("Sound"@),
        MacroKind::Unknown(code) => if code == 66 {
            Some("PlatformStr"@)
        } else {
            Some(unknown_tag(code))
        },
        _ => None,
    }
}

/// Rendering a macro of one of these kinds is exactly the generic
/// rendering with its tag: the same outcome and the same state.
pub proof fn law_format_macro_is_generic(m: MacroPayload, st: StateView)
    requires
        generic_tag(m.kind) is Some,
    ensures
        format_macro(m, st) == ({
            let g = generic_macro(generic_tag(m.kind)->Some_0, m.expressions@, st);
            (g.0, g.2)
        }),
{
    reveal(format_macro);
    reveal(run_macro);
    reveal(generic_macro);
}


/// Matches that come in order and do not overlap, as the matcher reports
/// them, are all replaced: tidying never passes over one of them, and the
/// text is the pieces between the matches with each match replaced.
pub open spec fn replaced_in_order(bytes: Seq<u8>, ms: Seq<(usize, usize, usize)>, last: int) -> Seq<char>
    decreases ms.len(),
{
    if ms.len() == 0 {
        decode_utf8(bytes.subrange(last, bytes.len() as int))
    } else {
        decode_utf8(bytes.subrange(last, ms[0].0 as int)) + replacement_texts()[ms[0].2 as int]
            + replaced_in_order(bytes, ms.drop_first(), ms[0].1 as int)
    }
}

/// Where the reported matches come in order without overlapping (as the
/// matcher's contract states), tidying replaces every one of them.
pub proof fn law_ordered_matches_all_replaced(bytes: Seq<u8>, ms: Seq<(usize, usize, usize)>, last: int)
    requires
        forall|i: int| 0 <= i < ms.len() ==> (#[trigger] ms[i]).0 <= ms[i].1,
        forall|i: int, j: int| 0 <= i < j < ms.len() ==> (#[trigger] ms[i]).1 <= (#[trigger] ms[j]).0,
        ms.len() > 0 ==> last <= ms[0].0,
    ensures
        cleaned(bytes, ms, last) == replaced_in_order(bytes, ms, last),
    decreases ms.len(),
{
    if ms.len() > 0 {
        let rest = ms.drop_first();
        assert forall|i: int, j: int| 0 <= i < j < rest.len() implies (#[trigger] rest[i]).1 <= (#[trigger] rest[j]).0 by {
            assert(rest[i] == ms[i + 1] && rest[j] == ms[j + 1]);
        }
        assert forall|i: int| 0 <= i < rest.len() implies (#[trigger] rest[i]).0 <= rest[i].1 by {
            assert(rest[i] == ms[i + 1]);
        }
        if rest.len() > 0 {
            assert(rest[0] == ms[1]);
            assert(ms[0].1 <= ms[1].0);
        }
        law_ordered_matches_all_replaced(bytes, rest, ms[0].1 as int);
    }
}

} // verus!
