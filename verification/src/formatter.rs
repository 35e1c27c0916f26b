//! Formatting strings: payload by payload, macro by macro.

use vstd::prelude::*;
use crate::handle_macro;
use crate::semantics::{run_macro, format_macro as format_macro_spec, format_payloads, format_sestring as format_sestring_spec, out_unit};
use crate::semantics::{write_st, Out};
use crate::sestring::{kind_name, MacroKind, MacroPayload, Payload, SeString};
use crate::state::{CGWState, StateView, FFXIV_EPOCH};
use crate::answers::{law_formatting_keeps_answers, lemma_steps_keep_halted};
use crate::lookup::{answers_kept, Lookups, LookupsView};
use crate::string_process::{clean_str, clean_text};
use crate::value::{error_message, SeStringError};
use crate::write::Write;
use crate::writer::{fresh_writer, reset, CGWikiWriter};

verus! {

/// Formats a string into the state; the first error stops it.
pub fn format_sestring(sestring: SeString, state: &mut CGWState) -> (r: Result<(), SeStringError>)
    ensures
        !(format_sestring_spec(sestring, old(state)@).1 is Abort) ==> {
            &&& final(state)@ == format_sestring_spec(sestring, old(state)@).0
            &&& out_unit(r) == format_sestring_spec(sestring, old(state)@).1
        },
        format_sestring_spec(sestring, old(state)@).1 is Abort ==> final(state)@.halted && r is Err,
    decreases sestring, 2nat,
{
    proof {
        reveal(format_sestring_spec);
        reveal(format_payloads);
    }
    let ghost ps = sestring.payloads@;
    let ghost st0 = state@;
    let mut payloads = sestring.payloads;
    let ghost mut k: int = 0;
    assert(ps.skip(0) =~= ps);
    while payloads.len() > 0
        invariant
            ps == sestring.payloads@,
            st0 == old(state)@,
            format_sestring_spec(sestring, st0) == format_payloads(ps, st0),
            0 <= k <= ps.len(),
            payloads@ == ps.skip(k),
            format_payloads(ps, st0) == format_payloads(payloads@, state@),
        decreases payloads@.len(),
    {
        let ghost st1 = state@;
        let ghost rest = payloads@;
        let payload = payloads.remove(0);
        proof {
            reveal(format_payloads);
            reveal(format_macro_spec);
            assert(rest[0] == ps[k]);
            assert(payloads@ =~= rest.drop_first());
            assert(rest.drop_first() =~= ps.skip(k + 1));
            k = k + 1;
        }
        match payload {
            Err(e) => {
                return Err(e);
            },
            Ok(Payload::Text(Err(e))) => {
                return Err(e);
            },
            Ok(Payload::Text(Ok(text))) => {
                let _ = state.writer.write_str(text.as_str());
            },
            Ok(Payload::Macro(inner)) => {
                proof {
                    assert(decreases_to!(sestring => ps));
                    assert(decreases_to!(ps => ps[k - 1]));
                }
                format_macro(inner, state)?;
            },
        }
    }
    Ok(())
}

/// Renders one macro into the state.
pub fn format_macro(payload: MacroPayload, state: &mut CGWState) -> (r: Result<(), SeStringError>)
    ensures
        !(format_macro_spec(payload, old(state)@).1 is Abort) ==> {
            &&& final(state)@ == format_macro_spec(payload, old(state)@).0
            &&& out_unit(r) == format_macro_spec(payload, old(state)@).1
        },
        format_macro_spec(payload, old(state)@).1 is Abort ==> final(state)@.halted && r is Err,
    decreases payload, 9nat,
{
    proof {
        reveal(format_macro_spec);
        reveal(run_macro);
    }
    let kind = payload.kind();
    let mut arguments = payload.expressions();
    let ghost args = arguments.items@;
    proof {
        assert(decreases_to!(payload => args));
    }
    match kind {
        MacroKind::Bold => handle_macro::bold(&mut arguments, state),
        MacroKind::Italic => handle_macro::italic(&mut arguments, state),
        MacroKind::Edge => handle_macro::edge(&mut arguments, state),
        MacroKind::Shadow => handle_macro::shadow(&mut arguments, state),
        MacroKind::Color => handle_macro::color(kind, &mut arguments, state),
        MacroKind::EdgeColor => handle_macro::color(kind, &mut arguments, state),
        MacroKind::ShadowColor => handle_macro::color(kind, &mut arguments, state),
        MacroKind::ColorType => handle_macro::color_type(&mut arguments, state),
        MacroKind::EdgeColorType => handle_macro::edge_color_type(&mut arguments, state),
        MacroKind::NonBreakingSpace => handle_macro::nbsp(&mut arguments, state),
        MacroKind::Hyphen => handle_macro::hyphen(&mut arguments, state),
        MacroKind::SoftHyphen => handle_macro::soft_hyphen(&mut arguments, state),
        MacroKind::NewLine => handle_macro::newline(&mut arguments, state),
        // Reference to the Platform sheet with an index plus a number based on the platform
        MacroKind::Unknown(66) => handle_macro::generic("PlatformStr", &mut arguments, state),
        MacroKind::SetResetTime => handle_macro::reset_time(&mut arguments, state),
        MacroKind::SetTime => handle_macro::set_time(&mut arguments, state),
        MacroKind::If => handle_macro::r_if("If", &mut arguments, state),
        MacroKind::IfSelf => handle_macro::r_if("IfSelf", &mut arguments, state),
        MacroKind::IfPcGender => handle_macro::r_if("IfPcGender", &mut arguments, state),
        MacroKind::IfPcName => handle_macro::r_if("IfPcName", &mut arguments, state),
        MacroKind::Switch => handle_macro::switch(&mut arguments, state),
        // Sheet, Article?, Index, plural_name, singular_name
        MacroKind::JaNoun => handle_macro::generic("JaNoun", &mut arguments, state),
        MacroKind::EnNoun => handle_macro::generic("EnNoun", &mut arguments, state),
        MacroKind::DeNoun => handle_macro::generic("DeNoun", &mut arguments, state),
        MacroKind::FrNoun => handle_macro::generic("FrNoun", &mut arguments, state),
        MacroKind::ChNoun => handle_macro::generic("ChNoun", &mut arguments, state),
        MacroKind::Ruby => handle_macro::ruby(&mut arguments, state),
        MacroKind::Icon => handle_macro::generic("Icon", &mut arguments, state),
        MacroKind::Icon2 => handle_macro::generic("Icon2", &mut arguments, state),
        MacroKind::Caps => handle_macro::generic("Caps", &mut arguments, state),
        MacroKind::Head => handle_macro::generic("Head", &mut arguments, state),
        MacroKind::HeadAll => handle_macro::generic("HeadAll", &mut arguments, state),
        MacroKind::LowerHead => handle_macro::generic("LowerHead", &mut arguments, state),
        MacroKind::Lower => handle_macro::generic("Lower", &mut arguments, state),
        MacroKind::Split => handle_macro::split(&mut arguments, state),
        MacroKind::Kilo => handle_macro::generic("Kilo", &mut arguments, state),
        MacroKind::Digit => handle_macro::generic("Digit", &mut arguments, state),
        MacroKind::Float => handle_macro::generic("Float", &mut arguments, state),
        // Key may be used for "popups" when a page break is needed
        MacroKind::Key => handle_macro::generic("Key", &mut arguments, state),
        MacroKind::Sec => handle_macro::generic("Sec", &mut arguments, state),
        MacroKind::LevelPos => handle_macro::generic("LevelPos", &mut arguments, state),
        MacroKind::Ordinal => handle_macro::generic("Ordinal", &mut arguments, state),
        MacroKind::Fixed => handle_macro::generic("Fixed", &mut arguments, state),
        // Sheet(sheet_name, row, column_index_after_first)
        MacroKind::Sheet => handle_macro::sheet(&mut arguments, state),
        MacroKind::String => handle_macro::string(&mut arguments, state),
        MacroKind::Num => handle_macro::generic("Num", &mut arguments, state),
        MacroKind::PcName => handle_macro::generic("PcName", &mut arguments, state),
        MacroKind::Sound => handle_macro::generic("Sound", &mut arguments, state),
        MacroKind::Unknown(x) => handle_macro::unknown(x, &mut arguments, state),
        MacroKind::Other(_) => Ok(()),
    }
}


/// The text written in place of a payload that failed to decode.
pub open spec fn payload_error_text(e: SeStringError) -> Seq<char> {
    "<Error: "@ + error_message(e) + ">"@
}

/// The text written in place of text that is not valid UTF-8.
pub open spec fn unicode_error_text() -> Seq<char> {
    "<Error: unicode decode fail>"@
}

/// The text written after a macro that failed, with the error and the
/// macro's kind.
pub open spec fn macro_error_text(e: SeStringError, kind: MacroKind) -> Seq<char> {
    "<Error: macro decode fail ("@ + error_message(e) + ", "@ + kind_name(kind) + ")>"@
}

/// Formatting the payloads of a whole string: an error is written into the
/// text in place of what failed, and formatting goes on with the next
/// payload. The flag is set where a macro's input is outside what the
/// formatter accepts; formatting stops there.
pub open spec fn format_top(ps: Seq<Result<Payload, SeStringError>>, st: StateView) -> (StateView, bool)
    decreases ps.len(),
{
    if ps.len() == 0 {
        (st, false)
    } else {
        match ps[0] {
            Err(e) => format_top(ps.drop_first(), write_st(st, payload_error_text(e))),
            Ok(Payload::Text(Ok(text))) => format_top(ps.drop_first(), write_st(st, text@)),
            Ok(Payload::Text(Err(_))) => format_top(ps.drop_first(), write_st(st, unicode_error_text())),
            Ok(Payload::Macro(m)) => {
                let (s1, o) = format_macro_spec(m, st);
                match o {
                    Out::Ret(_) => format_top(ps.drop_first(), s1),
                    Out::Fail(e) => format_top(ps.drop_first(), write_st(s1, macro_error_text(e, m.kind))),
                    Out::Abort => (s1, true),
                }
            },
        }
    }
}

/// The state a whole string is formatted from: a fresh writer, the clock at
/// the game's epoch, and the given lookup table.
pub open spec fn initial_state(lookups: LookupsView) -> StateView {
    StateView { writer: fresh_writer(), lookups, time: FFXIV_EPOCH, halted: false }
}

/// What `format_string` gives for a string's payloads from a lookup table:
/// the formatted text with all styles closed, tidied.
pub open spec fn formatted_text(ps: Seq<Result<Payload, SeStringError>>, lookups: LookupsView) -> Seq<char> {
    clean_text(reset(format_top(ps, initial_state(lookups)).0.writer).buffer)
}

/// Formats a whole string as wiki text. Errors are written into the text
/// where they occur; lookups the table cannot answer are noted in it.
pub fn format_string(sestring: SeString, lookups: &mut Lookups) -> (r: String)
    requires
        !format_top(sestring.payloads@, initial_state(old(lookups)@)).1,
    ensures
        r@ == formatted_text(sestring.payloads@, old(lookups)@),
        final(lookups)@ == format_top(sestring.payloads@, initial_state(old(lookups)@)).0.lookups,
        answers_kept(old(lookups)@, final(lookups)@),
{
    match try_format_string(sestring, lookups) {
        Some(text) => text,
        None => String::new(),
    }
}

/// Formats a whole string as `format_string` does, or gives `None` where
/// the string holds a macro that the formatter cannot go on from (the
/// inputs that `format_string` does not take).
pub fn try_format_string(sestring: SeString, lookups: &mut Lookups) -> (r: Option<String>)
    ensures
        r is None <==> format_top(sestring.payloads@, initial_state(old(lookups)@)).1,
        r matches Some(t) ==> {
            &&& t@ == formatted_text(sestring.payloads@, old(lookups)@)
            &&& final(lookups)@ == format_top(sestring.payloads@, initial_state(old(lookups)@)).0.lookups
            &&& answers_kept(old(lookups)@, final(lookups)@)
        },
{
    proof {
        law_formatting_keeps_answers(sestring.payloads@, initial_state(lookups@));
    }
    let mut table = Lookups::new();
    std::mem::swap(lookups, &mut table);
    let mut state = CGWState::new(CGWikiWriter::new(), table);
    let ghost ps = sestring.payloads@;
    let ghost st0 = state@;
    let mut payloads = sestring.payloads;
    while payloads.len() > 0
        invariant
            ps == sestring.payloads@,
            st0 == initial_state(old(lookups)@),
            format_top(ps, st0) == format_top(payloads@, state@),
            !state@.halted,
        decreases payloads@.len(),
    {
        let ghost rest = payloads@;
        let ghost st1 = state@;
        let payload = payloads.remove(0);
        proof {
            assert(payloads@ =~= rest.drop_first());
        }
        match payload {
            Err(e) => {
                let mut text = String::from_str("<Error: ");
                text.append(e.message().as_str());
                text.append(">");
                let _ = state.writer.write_str(text.as_str());
            },
            Ok(Payload::Text(Ok(text))) => {
                let _ = state.writer.write_str(text.as_str());
            },
            Ok(Payload::Text(Err(_))) => {
                let _ = state.writer.write_str("<Error: unicode decode fail>");
            },
            Ok(Payload::Macro(inner)) => {
                let kind = inner.kind();
                proof {
                    lemma_steps_keep_halted(arbitrary(), inner, state@);
                }
                let res = format_macro(inner, &mut state);
                if let Err(e) = res {
                    if state.halted {
                        proof {
                            assert(format_macro_spec(inner, st1).1 is Abort);
                            assert(format_top(rest, st1).1);
                        }
                        return None;
                    }
                    let mut text = String::from_str("<Error: macro decode fail (");
                    text.append(e.message().as_str());
                    text.append(", ");
                    text.append(kind.name().as_str());
                    text.append(")>");
                    let _ = state.writer.write_str(text.as_str());
                }
            },
        }
    }
    let CGWState { writer: mut writer, lookups: table, time: _, halted: _ } = state;
    *lookups = table;
    writer.reset_style();
    Some(clean_str(writer.buffer.as_str()))
}

} // verus!
