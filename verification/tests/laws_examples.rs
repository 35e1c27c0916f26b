use cgwiki::color_category::ColorCategory;
use cgwiki::evaluate::evaluate_expression;
use cgwiki::formatter::format_string;
use cgwiki::lookup::{ClassJobName, Lookups, SheetColumn};
use cgwiki::sestring::{Expression, MacroKind, MacroPayload, Payload, SeString};
use cgwiki::state::CGWState;
use cgwiki::string_process::clean_str;
use cgwiki::value::Value;
use cgwiki::write::{ColorUsage, Style, Write};
use cgwiki::writer::CGWikiWriter;

fn mac(kind: MacroKind, args: Vec<Expression>) -> Result<Payload, cgwiki::value::SeStringError> {
    Ok(Payload::Macro(MacroPayload { kind, expressions: args.into_iter().map(Ok).collect() }))
}

#[test]
fn reset_twice_is_reset_once() {
    let mut w = CGWikiWriter::new();
    w.set_style(Style::Bold, true).unwrap();
    w.push_color_type(ColorUsage::Foreground, ColorCategory::Orange).unwrap();
    w.write_str("x").unwrap();
    w.reset_style();
    let once = w.buffer.clone();
    assert_eq!(once, "'''{{colorize|```x'''```}}");
    assert!(!w.is_bold && !w.is_italic && w.is_edge);
    assert_eq!(w.color_category, ColorCategory::NoColor);
    w.reset_style();
    assert_eq!(w.buffer, once);
}

#[test]
fn push_then_pop_writes_open_and_close() {
    let mut w = CGWikiWriter::new();
    w.push_color_type(ColorUsage::Foreground, ColorCategory::Ascian).unwrap();
    w.pop_color_type(ColorUsage::Foreground).unwrap();
    assert_eq!(w.buffer, "<span class=\"color-ascian\"></span>");
    let mut e = CGWikiWriter::new();
    e.push_color_type(ColorUsage::Edge, ColorCategory::Ascian).unwrap();
    e.pop_color_type(ColorUsage::Edge).unwrap();
    assert_eq!(e.buffer, "");
    assert_eq!(e.color_category, ColorCategory::NoColor);
}

#[test]
fn number_text_reads_back() {
    for n in [0u32, 7, 10, 99, 12345, 4294967295] {
        let text = Value::U32(n).to_text();
        assert_eq!(Value::String(text).to_number(), n);
    }
}

#[test]
fn text_without_fragments_is_unchanged() {
    let s = "Nothing to replace here: <If(x)>a</If>";
    assert_eq!(clean_str(s), s);
}

#[test]
fn evaluation_keeps_writer_and_clock() {
    let mut st = CGWState::new(CGWikiWriter::new(), Lookups::new());
    st.writer.write_str("kept").unwrap();
    let before_time = st.time;
    let inner = SeString {
        payloads: vec![
            mac(MacroKind::SetTime, vec![Expression::U32(5)]),
            mac(MacroKind::Bold, vec![Expression::U32(1)]),
            Ok(Payload::Text(Ok("z".to_string()))),
        ],
    };
    let v = evaluate_expression(Expression::SeString(inner), &mut st).unwrap();
    assert_eq!(v.to_text(), "'''z'''");
    assert_eq!(st.writer.buffer, "kept");
    assert_eq!(st.time, before_time);
    assert!(!st.writer.is_bold);
}

#[test]
fn formatting_keeps_answers_and_adds_questions() {
    let mut lookups = Lookups::new();
    lookups.columns.push(SheetColumn { sheet: "A".to_string(), index: 0, name: Some("N".to_string()) });
    lookups.class_jobs.push(ClassJobName::from_row(1, Some("Gladiator".to_string())));
    let sheet = |name: &str| {
        mac(
            MacroKind::Sheet,
            vec![
                Expression::SeString(SeString { payloads: vec![Ok(Payload::Text(Ok(name.to_string())))] }),
                Expression::U32(1),
                Expression::U32(0),
            ],
        )
    };
    let _ = format_string(SeString { payloads: vec![sheet("A")] }, &mut lookups);
    assert_eq!(lookups.missing.len(), 1);
    let _ = format_string(SeString { payloads: vec![sheet("B")] }, &mut lookups);
    assert_eq!(lookups.missing.len(), 3);
    assert_eq!(lookups.columns.len(), 1);
    assert_eq!(lookups.columns[0].name, Some("N".to_string()));
    assert_eq!(lookups.class_jobs.len(), 1);
    assert_eq!(lookups.cells.len(), 0);
}

#[test]
fn reset_time_never_moves_back() {
    let mut lookups = Lookups::new();
    for (hour, weekday) in [(0u32, None), (8, None), (23, None), (3, Some(2u32)), (9, Some(0u32)), (12, Some(40u32))] {
        let mut args = vec![Expression::U32(hour)];
        if let Some(w) = weekday {
            args.push(Expression::U32(w));
        }
        let out = format_string(
            SeString {
                payloads: vec![
                    mac(MacroKind::SetResetTime, args),
                    mac(MacroKind::Num, vec![Expression::Hour, Expression::Day, Expression::Month]),
                ],
            },
            &mut lookups,
        );
        let inner = out.trim_start_matches("<Num(").trim_end_matches(")>");
        let parts: Vec<u32> = inner.split(',').map(|p| p.parse().unwrap()).collect();
        assert_eq!(parts[0], hour);
        // The epoch is 2013-08-27 08:00; the reset is never earlier.
        assert!(parts[2] > 8 || (parts[2] == 8 && (parts[1] > 27 || (parts[1] == 27 && parts[0] >= 8))));
    }
}

#[test]
fn reset_time_reaches_the_weekday() {
    let run = |hour: u32, weekday: u32| {
        let mut lookups = Lookups::new();
        format_string(
            SeString {
                payloads: vec![
                    mac(MacroKind::SetResetTime, vec![Expression::U32(hour), Expression::U32(weekday)]),
                    mac(MacroKind::Num, vec![Expression::Day, Expression::Weekday, Expression::Hour]),
                ],
            },
            &mut lookups,
        )
    };
    // The epoch is Tuesday (weekday 2 counted from Sunday as 0) at 08:00.
    assert_eq!(run(15, 2), "<Num(27,3,15)>");
    assert_eq!(run(10, 0), "<Num(1,1,10)>");
    assert_eq!(run(3, 6), "<Num(31,7,3)>");
    // Today with the hour passed: the next day, not the next week.
    assert_eq!(run(7, 2), "<Num(28,4,7)>");
}
