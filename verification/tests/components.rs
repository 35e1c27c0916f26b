use cgwiki::color_category::ColorCategory;
use cgwiki::convert_value::{into_compare, into_global_param, into_local_param, into_time, list_to_str, TimeField};
use cgwiki::evaluate::evaluate_expression;
use cgwiki::from_expressions::{take_str, take_u32, take_value, take_value_list, try_take_u32, try_take_value};
use cgwiki::handle_macro::{bold, color, generic, is_malformed_comparison, r_if, sheet, switch, try_get_comparison, unknown};
use cgwiki::lookup::{get_class_job, get_sheet_col, lookup_sheet, ClassJobName, Lookups, SheetCell, SheetColumn};
use cgwiki::operator::vars;
use cgwiki::formatter::format_macro;
use cgwiki::sestring::{Expression, Expressions, MacroKind, MacroPayload, Payload, SeString};
use cgwiki::state::{CGWState, FFXIV_EPOCH};
use cgwiki::text::{decimal_string, parse_u32, str_eq};
use cgwiki::value::{SeStringError, Value};
use cgwiki::write::{ColorUsage, Style, Write};
use cgwiki::writer::CGWikiWriter;

fn state() -> CGWState {
    CGWState::new(CGWikiWriter::new(), Lookups::new())
}

fn args(list: Vec<Expression>) -> Expressions {
    Expressions { items: list.into_iter().map(Ok).collect() }
}

fn nested(s: &str) -> Expression {
    Expression::SeString(SeString { payloads: vec![Ok(Payload::Text(Ok(s.to_string())))] })
}

fn text_of(v: &Value) -> String {
    v.to_text()
}

#[test]
fn new_writer_is_plain() {
    let w = CGWikiWriter::new();
    assert_eq!(w.buffer, "");
    assert!(!w.is_bold && !w.is_italic && w.is_edge && w.is_shadow);
    assert_eq!(w.color_category, ColorCategory::NoColor);
}

#[test]
fn writer_styles_and_colours() {
    let mut w = CGWikiWriter::new();
    w.write_str("a").unwrap();
    w.set_style(Style::Bold, true).unwrap();
    w.set_style(Style::Italic, true).unwrap();
    w.write("b".to_string()).unwrap();
    w.push_color_type(ColorUsage::Foreground, ColorCategory::Hint).unwrap();
    w.write_str("c").unwrap();
    w.pop_color_type(ColorUsage::Foreground).unwrap();
    assert_eq!(w.buffer, "a'''''b<span class=\"color-hint\">c</span>");
    w.reset_style();
    assert_eq!(w.buffer, "a'''''b<span class=\"color-hint\">c</span>'''''");
    assert!(!w.is_bold && !w.is_italic);
}

#[test]
fn every_colour_opens_and_closes() {
    let cases = [
        (ColorCategory::Hint, "<span class=\"color-hint\">", "</span>"),
        (ColorCategory::QuestSync, "<span class=\"color-questsync\">", "</span>"),
        (ColorCategory::Adjusted, "<span class=\"color-adjusted\">", "</span>"),
        (ColorCategory::Ascian, "<span class=\"color-ascian\">", "</span>"),
        (ColorCategory::White, "<span class=\"color-cosmicquest\">", "</span>"),
        (ColorCategory::Orange, "{{colorize|```", "```}}"),
        (ColorCategory::Yellow, "{{colorize|``", "``}}"),
        (ColorCategory::Accompany, "{{colorize|``", "``}}"),
        (ColorCategory::Green, "{{colorize|`", "`}}"),
        (ColorCategory::NoColor, "", ""),
    ];
    for (category, open, close) in cases {
        let mut w = CGWikiWriter::new();
        w.push_color_type(ColorUsage::Foreground, category).unwrap();
        assert_eq!(w.buffer, open);
        w.pop_color_type(ColorUsage::Foreground).unwrap();
        assert_eq!(w.buffer, format!("{}{}", open, close));
        assert_eq!(w.color_category, ColorCategory::NoColor);
    }
}

#[test]
fn shadow_follows_the_outline_flag() {
    let mut w = CGWikiWriter::new();
    w.set_style(Style::Shadow, false).unwrap();
    assert!(!w.is_shadow);
    w.set_style(Style::Outline, false).unwrap();
    assert!(!w.is_edge);
    // The shadow flag changes only where the new setting differs from the outline flag.
    w.set_style(Style::Shadow, true).unwrap();
    assert!(w.is_shadow);
    w.reset_style();
    assert!(w.is_edge);
    assert_eq!(w.buffer, "");
}

#[test]
fn colour_categories_from_numbers() {
    assert_eq!(ColorCategory::from(0), ColorCategory::NoColor);
    assert_eq!(ColorCategory::from(504), ColorCategory::Green);
    assert_eq!(ColorCategory::from(507), ColorCategory::Yellow);
    assert_eq!(ColorCategory::from(500), ColorCategory::Orange);
    assert_eq!(ColorCategory::from(572), ColorCategory::White);
    assert_eq!(ColorCategory::from(547), ColorCategory::Ascian);
    assert_eq!(ColorCategory::from(548), ColorCategory::Accompany);
    assert_eq!(ColorCategory::from(534), ColorCategory::Adjusted);
    assert_eq!(ColorCategory::from(509), ColorCategory::QuestSync);
    assert_eq!(ColorCategory::from(581), ColorCategory::Hint);
    assert_eq!(ColorCategory::from(12), ColorCategory::Unknown(12));
    assert_eq!(ColorCategory::default(), ColorCategory::NoColor);
}

#[test]
fn decimal_and_parsing() {
    assert_eq!(decimal_string(0), "0");
    assert_eq!(decimal_string(18446744073709551615), "18446744073709551615");
    assert_eq!(parse_u32("42"), Some(42));
    assert_eq!(parse_u32("+7"), Some(7));
    assert_eq!(parse_u32("007"), Some(7));
    assert_eq!(parse_u32("4294967295"), Some(4294967295));
    assert_eq!(parse_u32("4294967296"), None);
    assert_eq!(parse_u32(""), None);
    assert_eq!(parse_u32("+"), None);
    assert_eq!(parse_u32("-1"), None);
    assert_eq!(parse_u32("1a"), None);
    assert!(str_eq("héllo", "héllo"));
    assert!(!str_eq("a", "ab"));
}

#[test]
fn values_as_text_and_number() {
    assert_eq!(Value::U32(12).to_text(), "12");
    assert_eq!(Value::String("x".to_string()).to_text(), "x");
    assert_eq!(Value::Unknown.to_text(), "");
    assert_eq!(Value::String("34".to_string()).to_number(), 34);
    assert_eq!(Value::String("abc".to_string()).to_number(), 0);
    assert_eq!(Value::Unknown.to_number(), 0);
    assert_eq!(SeStringError::InsufficientArguments.message(), "insufficient arguments");
    assert_eq!(SeStringError::UnexpectedEof.message(), "unexpected end of input");
}

#[test]
fn parameter_references() {
    assert_eq!(text_of(&into_global_param(Value::U32(52)).unwrap()), "<Global(52)>");
    assert_eq!(text_of(&into_global_param(Value::String("a".to_string())).unwrap()), "<Global_S(\"a\")>");
    assert_eq!(text_of(&into_global_param(Value::Unknown).unwrap()), "<Global_U(\"\")>");
    assert_eq!(text_of(&into_local_param(Value::U32(1)).unwrap()), "<Local(1)>");
    assert_eq!(text_of(&into_local_param(Value::String("b".to_string())).unwrap()), "<Local_S(\"b\")>");
    assert_eq!(text_of(&into_local_param(Value::Unknown).unwrap()), "<Local_U(\"\")>");
}

#[test]
fn comparisons_of_values() {
    let cmp = |op: &str, a: u32, b: u32| text_of(&into_compare(op, Value::U32(a), Value::U32(b)).unwrap());
    assert_eq!(cmp("GreaterThanOrEqualTo", 2, 2), "true");
    assert_eq!(cmp("GreaterThan", 2, 2), "false");
    assert_eq!(cmp("LessThanOrEqualTo", 1, 2), "true");
    assert_eq!(cmp("LessThan", 3, 2), "false");
    assert_eq!(cmp("Equal", 5, 5), "true");
    assert_eq!(cmp("NotEqual", 5, 5), "false");
    assert_eq!(cmp("Sideways", 5, 5), "false");
    let mixed = into_compare("Equal", Value::String("<Global(68)>".to_string()), Value::U32(19)).unwrap();
    assert_eq!(text_of(&mixed), "Equal(<Global(68)>,19)");
    assert_eq!(list_to_str(&[Value::U32(1), Value::Unknown, Value::String("c".to_string())]).unwrap(), "1,,c");
    assert_eq!(list_to_str(&[]).unwrap(), "");
}

#[test]
fn clock_readings() {
    let mut st = state();
    assert_eq!(st.time, FFXIV_EPOCH);
    st.time = 1700000000; // 2023-11-14 22:13:20 UTC, a Tuesday
    let read = |f: TimeField, st: &CGWState| text_of(&into_time(f, st).unwrap());
    assert_eq!(read(TimeField::Year, &st), "2023");
    assert_eq!(read(TimeField::Month, &st), "11");
    assert_eq!(read(TimeField::Day, &st), "14");
    assert_eq!(read(TimeField::Hour, &st), "22");
    assert_eq!(read(TimeField::Minute, &st), "13");
    assert_eq!(read(TimeField::Second, &st), "20");
    assert_eq!(read(TimeField::Millisecond, &st), "0");
    assert_eq!(read(TimeField::Weekday, &st), "3");
}

#[test]
fn evaluating_expressions() {
    let mut st = state();
    let v = evaluate_expression(Expression::Unknown(0xAB), &mut st).unwrap();
    assert_eq!(text_of(&v), "M#AB");
    let v = evaluate_expression(Expression::StackColor, &mut st).unwrap();
    assert_eq!(text_of(&v), "<StackColor>");
    let v = evaluate_expression(Expression::Other, &mut st).unwrap();
    assert!(matches!(v, Value::Unknown));
    let v = evaluate_expression(
        Expression::Gt(Box::new(Expression::U32(3)), Box::new(Expression::U32(2))),
        &mut st,
    )
    .unwrap();
    assert_eq!(text_of(&v), "true");
    let bad = SeString { payloads: vec![Err(SeStringError::InvalidPayload)] };
    let e = evaluate_expression(Expression::SeString(bad), &mut st);
    assert!(matches!(e, Err(SeStringError::InvalidPayload)));
    assert_eq!(st.writer.buffer, "");
}

#[test]
fn taking_arguments() {
    let mut st = state();
    let mut a = args(vec![Expression::U32(4), nested("s"), Expression::U32(9)]);
    assert_eq!(take_u32(&mut a, &mut st).unwrap(), 4);
    assert_eq!(take_str(&mut a, &mut st).unwrap(), "s");
    assert_eq!(try_take_u32(&mut a, &mut st).unwrap(), Some(9));
    assert_eq!(try_take_u32(&mut a, &mut st).unwrap(), None);
    assert!(matches!(take_value(&mut a, &mut st), Err(SeStringError::InsufficientArguments)));
    assert!(try_take_value(&mut a, &mut st).unwrap().is_none());

    let mut wrong = args(vec![nested("not a number")]);
    assert!(matches!(take_u32(&mut wrong, &mut st), Err(SeStringError::InsufficientArguments)));
    let mut wrong = args(vec![Expression::U32(1)]);
    assert!(matches!(take_str(&mut wrong, &mut st), Err(SeStringError::InsufficientArguments)));

    let mut all = args(vec![Expression::U32(1), nested("b"), Expression::Other]);
    let list = take_value_list(&mut all, &mut st).unwrap();
    assert_eq!(list.len(), 3);
    assert_eq!(all.items.len(), 0);

    let mut broken = Expressions { items: vec![Ok(Expression::U32(1)), Err(SeStringError::InvalidExpression)] };
    assert!(matches!(take_value_list(&mut broken, &mut st), Err(SeStringError::InvalidExpression)));
}

#[test]
fn comparison_conditions() {
    assert_eq!(
        try_get_comparison("GreaterThan(<Global(52)>,0)"),
        Some(("GreaterThan".to_string(), "<Global(52)>".to_string(), "0".to_string()))
    );
    assert_eq!(
        try_get_comparison("GreaterThanOrEqualTo(a,b)"),
        Some(("GreaterThanOrEqualTo".to_string(), "a".to_string(), "b".to_string()))
    );
    assert_eq!(try_get_comparison("Equal"), None);
    assert_eq!(try_get_comparison("<Global(4)>"), None);
    assert_eq!(vars(), vec!["GreaterThanOrEqualTo", "GreaterThan", "LessThan", "LessThanOrEqualTo", "Equal", "NotEqual"]);
}

#[test]
fn macro_handlers_directly() {
    let mut st = state();
    bold(&mut args(vec![Expression::U32(1)]), &mut st).unwrap();
    color(MacroKind::Color, &mut args(vec![Expression::U32(0x00FF0000)]), &mut st).unwrap();
    generic("Kilo", &mut args(vec![Expression::U32(1), Expression::U32(2)]), &mut st).unwrap();
    unknown(9, &mut args(vec![]), &mut st).unwrap();
    assert_eq!(st.writer.buffer, "'''<Color(#FF0000)><Kilo(1,2)><Macro_9()>");

    let mut st = state();
    r_if("IfSelf", &mut args(vec![nested("c"), nested("y"), nested("n")]), &mut st).unwrap();
    switch(&mut args(vec![Expression::U32(1), nested("one")]), &mut st).unwrap();
    assert_eq!(st.writer.buffer, "<IfSelf(c)>y<Else>n</IfSelf>one");

    let mut st = state();
    sheet(&mut args(vec![nested("Quest"), nested("x"), Expression::U32(2)]), &mut st).unwrap();
    assert_eq!(st.writer.buffer, "<Sheet(Quest,x,2)>");
    assert_eq!(st.lookups.missing.len(), 1);
}

#[test]
fn lookups_answer_from_the_table() {
    let mut lookups = Lookups::new();
    lookups.columns.push(SheetColumn { sheet: "Item".to_string(), index: 1, name: None });
    lookups.cells.push(SheetCell { sheet: "Item".to_string(), row: 2, column: "Name".to_string(), text: None });
    lookups.class_jobs.push(ClassJobName::from_row(0, None));
    let mut st = CGWState::new(CGWikiWriter::new(), lookups);
    assert_eq!(get_sheet_col(&mut st, "Item", 1), None);
    assert_eq!(lookup_sheet(&mut st, "Item", 2, &"Name".to_string()), None);
    assert_eq!(get_class_job(&mut st, 0), Some("adventurer".to_string()));
    assert_eq!(st.lookups.missing.len(), 0);
    assert_eq!(get_class_job(&mut st, 1), None);
    assert_eq!(get_sheet_col(&mut st, "Other", 1), None);
    assert_eq!(st.lookups.missing.len(), 2);
}

#[test]
fn class_job_entries_are_built_from_rows() {
    let adventurer = ClassJobName::from_row(0, Some("Whatever".to_string()));
    assert_eq!(adventurer.index(), 0);
    assert_eq!(adventurer.name(), Some("adventurer".to_string()));
    let lancer = ClassJobName::from_row(4, Some("LANCER".to_string()));
    assert_eq!(lancer.name(), Some("lancer".to_string()));
    assert_eq!(ClassJobName::from_row(5, None).name(), None);
    let absent = ClassJobName::absent(0);
    assert_eq!(absent.index(), 0);
    assert_eq!(absent.name(), None);
}

#[test]
fn malformed_comparisons() {
    assert!(is_malformed_comparison("GreaterThan,("));
    assert!(is_malformed_comparison("Equal(a,b)é"));
    assert!(is_malformed_comparison("Equal(a,"));
    assert!(!is_malformed_comparison("Equal(a,b)"));
    assert!(!is_malformed_comparison("Equal"));
    assert!(!is_malformed_comparison("<Global(4)>"));
}

#[test]
fn handler_stops_where_it_cannot_go_on() {
    let mut st = state();
    let r = r_if("If", &mut args(vec![Expression::U32(1)]), &mut st);
    assert!(r.is_err());
    assert!(st.halted);
    let mut st = state();
    assert!(r_if("If", &mut args(vec![Expression::U32(1), nested("a"), nested("b")]), &mut st).is_ok());
    assert!(!st.halted);
}

#[test]
fn written_out_macros_render_as_the_generic_handler() {
    let cases: Vec<(MacroKind, &str)> = vec![
        (MacroKind::EnNoun, "EnNoun"),
        (MacroKind::Icon2, "Icon2"),
        (MacroKind::Sound, "Sound"),
        (MacroKind::Unknown(66), "PlatformStr"),
        (MacroKind::Unknown(9), "Macro_9"),
    ];
    for (kind, tag) in cases {
        let list = || vec![nested("x"), Expression::U32(3)];
        let mut via_format = state();
        let payload = MacroPayload { kind, expressions: list().into_iter().map(Ok).collect() };
        let a = format_macro(payload, &mut via_format);
        let mut via_generic = state();
        let b = generic(tag, &mut args(list()), &mut via_generic);
        assert_eq!(a.is_ok(), b.is_ok());
        assert_eq!(via_format.writer.buffer, via_generic.writer.buffer);
        assert_eq!(via_format.writer.buffer, format!("<{}(x,3)>", tag));
    }
}
