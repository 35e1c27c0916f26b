use cgwiki::formatter::format_string;
use cgwiki::lookup::{ClassJobName, LookupRequest, Lookups, SheetCell, SheetColumn};
use cgwiki::sestring::{Expression, MacroKind, MacroPayload, Payload, SeString};
use cgwiki::value::SeStringError;

type Item = Result<Payload, SeStringError>;

fn text(s: &str) -> Item {
    Ok(Payload::Text(Ok(s.to_string())))
}

fn mac(kind: MacroKind, args: Vec<Expression>) -> Item {
    Ok(Payload::Macro(MacroPayload { kind, expressions: args.into_iter().map(Ok).collect() }))
}

fn nested(s: &str) -> Expression {
    Expression::SeString(SeString { payloads: vec![text(s)] })
}

fn fmt(payloads: Vec<Item>) -> String {
    let mut lookups = Lookups::new();
    format_string(SeString { payloads }, &mut lookups)
}

fn fmt_with(payloads: Vec<Item>, lookups: &mut Lookups) -> String {
    format_string(SeString { payloads }, lookups)
}

#[test]
fn plain_text_comes_through() {
    assert_eq!(fmt(vec![text("Hello, "), text("world")]), "Hello, world");
}

#[test]
fn empty_string_formats_to_nothing() {
    assert_eq!(fmt(vec![]), "");
}

#[test]
fn bold_on_and_off() {
    let out = fmt(vec![
        mac(MacroKind::Bold, vec![Expression::U32(1)]),
        text("x"),
        mac(MacroKind::Bold, vec![Expression::U32(0)]),
    ]);
    assert_eq!(out, "'''x'''");
}

#[test]
fn open_italic_is_closed_at_the_end() {
    let out = fmt(vec![mac(MacroKind::Italic, vec![Expression::U32(5)]), text("x")]);
    assert_eq!(out, "''x''");
}

#[test]
fn bold_switched_on_twice_opens_once() {
    let out = fmt(vec![
        mac(MacroKind::Bold, vec![Expression::U32(1)]),
        mac(MacroKind::Bold, vec![Expression::U32(1)]),
        text("x"),
    ]);
    assert_eq!(out, "'''x'''");
}

#[test]
fn edge_and_shadow_write_nothing() {
    let out = fmt(vec![
        mac(MacroKind::Edge, vec![Expression::U32(0)]),
        mac(MacroKind::Shadow, vec![Expression::U32(0)]),
        text("x"),
    ]);
    assert_eq!(out, "x");
}

#[test]
fn color_type_green_wraps_text() {
    let out = fmt(vec![
        mac(MacroKind::ColorType, vec![Expression::U32(504)]),
        text("go"),
        mac(MacroKind::ColorType, vec![Expression::U32(0)]),
    ]);
    assert_eq!(out, "{{colorize|`go`}}");
}

#[test]
fn open_color_type_is_closed_at_the_end() {
    let out = fmt(vec![mac(MacroKind::ColorType, vec![Expression::U32(508)]), text("q")]);
    assert_eq!(out, "<span class=\"color-questsync\">q</span>");
}

#[test]
fn unknown_color_type_is_written_as_a_tag() {
    assert_eq!(fmt(vec![mac(MacroKind::ColorType, vec![Expression::U32(999)])]), "<ColorType(999)>");
    assert_eq!(
        fmt(vec![mac(MacroKind::EdgeColorType, vec![Expression::U32(3)])]),
        "<EdgeColorType(3)>"
    );
}

#[test]
fn edge_color_type_draws_nothing() {
    let out = fmt(vec![
        mac(MacroKind::EdgeColorType, vec![Expression::U32(504)]),
        text("a"),
        mac(MacroKind::EdgeColorType, vec![Expression::U32(0)]),
    ]);
    assert_eq!(out, "a");
}

#[test]
fn color_as_hex_and_stack_color() {
    assert_eq!(fmt(vec![mac(MacroKind::Color, vec![Expression::U32(0xFF11A2B3)])]), "<Color(#11A2B3)>");
    assert_eq!(fmt(vec![mac(MacroKind::EdgeColor, vec![Expression::StackColor])]), "</EdgeColor>");
    assert_eq!(fmt(vec![mac(MacroKind::ShadowColor, vec![nested("red")])]), "<ShadowColor(red)>");
}

#[test]
fn fixed_text_macros() {
    let out = fmt(vec![
        text("a"),
        mac(MacroKind::NonBreakingSpace, vec![]),
        text("b"),
        mac(MacroKind::Hyphen, vec![]),
        text("c"),
        mac(MacroKind::NewLine, vec![]),
        mac(MacroKind::SoftHyphen, vec![]),
    ]);
    assert_eq!(out, "a&nbsp;b-c<br>\u{AD}");
}

#[test]
fn payload_error_is_written_and_formatting_goes_on() {
    let out = fmt(vec![Err(SeStringError::InvalidPayload), text("x")]);
    assert_eq!(out, "<Error: invalid payload>x");
}

#[test]
fn bad_text_is_written_as_an_error() {
    let out = fmt(vec![Ok(Payload::Text(Err(SeStringError::InvalidText))), text("y")]);
    assert_eq!(out, "<Error: unicode decode fail>y");
}

#[test]
fn failing_macro_is_written_with_its_kind() {
    assert_eq!(
        fmt(vec![mac(MacroKind::Bold, vec![])]),
        "<Error: macro decode fail (insufficient arguments, Bold)>"
    );
    assert_eq!(
        fmt(vec![mac(MacroKind::Italic, vec![nested("on")])]),
        "<Error: macro decode fail (insufficient arguments, Italic)>"
    );
    let bad_arg = Ok(Payload::Macro(MacroPayload {
        kind: MacroKind::Unknown(5),
        expressions: vec![Err(SeStringError::InvalidExpression)],
    }));
    assert_eq!(fmt(vec![bad_arg]), "<Error: macro decode fail (invalid expression, Unknown(5))>");
}

#[test]
fn if_with_numeric_condition() {
    let yes = fmt(vec![mac(MacroKind::If, vec![Expression::U32(1), nested("yes"), nested("no")])]);
    assert_eq!(yes, "yes");
    let no = fmt(vec![mac(MacroKind::If, vec![Expression::U32(0), nested("yes"), nested("no")])]);
    assert_eq!(no, "no");
}

#[test]
fn if_with_equal_branches_writes_the_branch() {
    let out = fmt(vec![mac(
        MacroKind::IfSelf,
        vec![Expression::LocalNumber(Box::new(Expression::U32(1))), nested("same"), nested("same")],
    )]);
    assert_eq!(out, "same");
}

#[test]
fn if_on_gender_becomes_alternatives() {
    let out = fmt(vec![mac(
        MacroKind::If,
        vec![Expression::GlobalNumber(Box::new(Expression::U32(4))), nested("her"), nested("him")],
    )]);
    assert_eq!(out, "{{alternatives|f=her|m=him}}");
}

#[test]
fn if_with_other_condition_becomes_a_tag() {
    let out = fmt(vec![mac(
        MacroKind::IfPcGender,
        vec![Expression::LocalNumber(Box::new(Expression::U32(2))), nested("a"), nested("b")],
    )]);
    assert_eq!(out, "<IfPcGender(<Local(2)>)>a<Else>b</IfPcGender>");
    let no_else = fmt(vec![mac(
        MacroKind::If,
        vec![Expression::LocalNumber(Box::new(Expression::U32(2))), nested("a"), nested("")],
    )]);
    assert_eq!(no_else, "<If(<Local(2)>)>a</If>");
}

fn gc_condition(global: u32) -> Expression {
    Expression::Gt(
        Box::new(Expression::GlobalNumber(Box::new(Expression::U32(global)))),
        Box::new(Expression::U32(0)),
    )
}

#[test]
fn if_on_grand_company_title() {
    let alone = fmt(vec![mac(MacroKind::If, vec![gc_condition(52), nested("[Limsa GC Title]"), nested("")])]);
    assert_eq!(alone, "[Limsa GC Title]");
    let tagged = fmt(vec![mac(MacroKind::If, vec![gc_condition(53), nested("x"), nested("y")])]);
    assert_eq!(tagged, "<IfGridaniaGC>x<Else>y</IfGridaniaGC>");
}

#[test]
fn grand_company_alternatives_are_tidied() {
    let out = fmt(vec![
        mac(MacroKind::If, vec![gc_condition(52), nested("[Limsa GC Rank]"), nested("")]),
        mac(MacroKind::If, vec![gc_condition(53), nested("[Gridania GC Rank]"), nested("")]),
        mac(MacroKind::If, vec![gc_condition(54), nested("[Ul'dah GC Rank]"), nested("")]),
    ]);
    assert_eq!(out, "[GC Rank]");
}

fn class_job_condition(job: u32) -> Expression {
    Expression::Eq(
        Box::new(Expression::GlobalNumber(Box::new(Expression::U32(68)))),
        Box::new(Expression::U32(job)),
    )
}

#[test]
fn if_on_class_job_uses_the_lookup_table() {
    let payloads = || vec![mac(MacroKind::If, vec![class_job_condition(19), nested("a"), nested("b")])];
    let mut lookups = Lookups::new();
    let out = fmt_with(payloads(), &mut lookups);
    assert_eq!(out, "<IfClassJob(19)>a<Else>b</IfClassJob>");
    assert_eq!(lookups.missing.len(), 1);
    assert!(matches!(lookups.missing[0], LookupRequest::ClassJob { index: 19 }));

    let mut answered = Lookups::new();
    answered.class_jobs.push(ClassJobName::from_row(19, Some("Paladin".to_string())));
    let out = fmt_with(payloads(), &mut answered);
    assert_eq!(out, "<IfClassJob(paladin)>a<Else>b</IfClassJob>");
    assert_eq!(answered.missing.len(), 0);
}

#[test]
fn if_on_cutscene_controls() {
    let cond = Expression::Eq(
        Box::new(Expression::GlobalNumber(Box::new(Expression::U32(80)))),
        Box::new(Expression::U32(0)),
    );
    let out = fmt(vec![mac(
        MacroKind::If,
        vec![cond, nested("<ColorType(546)>"), nested("<Icon2(15)> / <Icon2(8)>")],
    )]);
    assert_eq!(out, "{{cutscene interact controls}}");
}

#[test]
fn switch_on_city_and_race() {
    let city = fmt(vec![mac(
        MacroKind::Switch,
        vec![
            Expression::GlobalNumber(Box::new(Expression::U32(70))),
            nested("a"),
            nested("b"),
            nested("c"),
        ],
    )]);
    assert_eq!(city, "{{alternatives|limsa=a|gridania=b|uldah=c}}");
    let mut args = vec![Expression::GlobalNumber(Box::new(Expression::U32(71)))];
    for n in ["1", "2", "3", "4", "5", "6", "7", "8"] {
        args.push(nested(n));
    }
    let race = fmt(vec![mac(MacroKind::Switch, args)]);
    assert_eq!(
        race,
        "{{alternatives|hyur=1|elezen=2|lalafell=3|miqote=4|roegadyn=5|aura=6|hrothgar=7|viera=8}}"
    );
}

#[test]
fn switch_on_number_picks_a_case() {
    let out = fmt(vec![mac(MacroKind::Switch, vec![Expression::U32(2), nested("x"), nested("y")])]);
    assert_eq!(out, "y");
    let out = fmt(vec![mac(MacroKind::Switch, vec![Expression::U32(5), nested("x")])]);
    assert_eq!(out, "<Switch(5)><Case(0)>x</Case></Switch>");
}

#[test]
fn switch_on_other_value_lists_cases() {
    let out = fmt(vec![mac(
        MacroKind::Switch,
        vec![Expression::LocalNumber(Box::new(Expression::U32(3))), nested("x"), nested("y")],
    )]);
    assert_eq!(out, "<Switch(<Local(3)>)><Case(0)>x</Case><Case(1)>y</Case></Switch>");
}

#[test]
fn ruby_text() {
    let out = fmt(vec![mac(MacroKind::Ruby, vec![nested("漢"), nested("かん")])]);
    assert_eq!(out, "<ruby>漢<rp>(</rp><rt>かん</rt><rp>)</rp></ruby>");
}

#[test]
fn split_names() {
    let forename = fmt(vec![mac(
        MacroKind::Split,
        vec![Expression::GlobalString(Box::new(Expression::U32(1))), nested(" "), Expression::U32(1)],
    )]);
    assert_eq!(forename, "[Forename]");
    let other = fmt(vec![mac(MacroKind::Split, vec![nested("a"), nested("b"), Expression::U32(3)])]);
    assert_eq!(other, "<Split(a,b,3)>");
}

#[test]
fn sheet_reference_notes_missing_lookups() {
    let payloads = || {
        vec![mac(MacroKind::Sheet, vec![nested("Item"), Expression::U32(5), Expression::U32(0)])]
    };
    let mut lookups = Lookups::new();
    assert_eq!(fmt_with(payloads(), &mut lookups), "<Sheet(Item,5,0)>");
    assert_eq!(lookups.missing.len(), 2);
    assert!(matches!(&lookups.missing[0], LookupRequest::Column { sheet, index: 0 } if sheet == "Item"));
    assert!(matches!(&lookups.missing[1],
        LookupRequest::Cell { sheet, row: 5, column } if sheet == "Item" && column == "0"));

    let mut answered = Lookups::new();
    answered.columns.push(SheetColumn { sheet: "Item".to_string(), index: 0, name: Some("Name".to_string()) });
    answered.cells.push(SheetCell {
        sheet: "Item".to_string(),
        row: 5,
        column: "Name".to_string(),
        text: Some("Potion".to_string()),
    });
    assert_eq!(fmt_with(payloads(), &mut answered), "Potion");
    assert_eq!(answered.missing.len(), 0);
}

#[test]
fn sheet_reference_to_grand_company_rank() {
    let mut lookups = Lookups::new();
    lookups.columns.push(SheetColumn {
        sheet: "GCRankLimsaMaleText".to_string(),
        index: 1,
        name: Some("NameRank".to_string()),
    });
    let out = fmt_with(
        vec![mac(
            MacroKind::Sheet,
            vec![
                nested("GCRankLimsaMaleText"),
                Expression::GlobalNumber(Box::new(Expression::U32(52))),
                Expression::U32(1),
            ],
        )],
        &mut lookups,
    );
    assert_eq!(out, "[Limsa GC Rank]");
}

#[test]
fn sheet_reference_to_instance_content_keeps_the_index() {
    let mut lookups = Lookups::new();
    lookups.columns.push(SheetColumn {
        sheet: "InstanceContent".to_string(),
        index: 3,
        name: Some("Name".to_string()),
    });
    let out = fmt_with(
        vec![mac(MacroKind::Sheet, vec![nested("InstanceContent"), Expression::U32(9), Expression::U32(3)])],
        &mut lookups,
    );
    assert_eq!(out, "<Sheet(InstanceContent,9,3)>");
}

#[test]
fn sheet_with_other_argument_count() {
    let out = fmt(vec![mac(MacroKind::Sheet, vec![nested("a"), Expression::U32(2)])]);
    assert_eq!(out, "<Sheet(a,2)>");
}

#[test]
fn string_and_generic_macros() {
    assert_eq!(fmt(vec![mac(MacroKind::String, vec![nested("abc")])]), "abc");
    assert_eq!(fmt(vec![mac(MacroKind::Icon, vec![Expression::U32(5)])]), "<Icon(5)>");
    assert_eq!(
        fmt(vec![mac(MacroKind::EnNoun, vec![nested("Item"), Expression::U32(1), Expression::U32(7)])]),
        "<EnNoun(Item,1,7)>"
    );
    assert_eq!(fmt(vec![mac(MacroKind::Unknown(66), vec![Expression::U32(2)])]), "<PlatformStr(2)>");
    assert_eq!(fmt(vec![mac(MacroKind::Unknown(7), vec![])]), "<Macro_7()>");
}

#[test]
fn macro_without_rendering_is_skipped() {
    assert_eq!(fmt(vec![text("a"), mac(MacroKind::Other(200), vec![]), text("b")]), "ab");
}

#[test]
fn clock_readings_at_the_epoch() {
    let out = fmt(vec![mac(
        MacroKind::Num,
        vec![
            Expression::Year,
            Expression::Month,
            Expression::Day,
            Expression::Hour,
            Expression::Minute,
            Expression::Second,
            Expression::Millisecond,
            Expression::Weekday,
        ],
    )]);
    // 2013-08-27 08:00:00 UTC, a Tuesday.
    assert_eq!(out, "<Num(2013,8,27,8,0,0,0,3)>");
}

#[test]
fn set_time_moves_the_clock() {
    let out = fmt(vec![
        mac(MacroKind::SetTime, vec![Expression::U32(90061)]),
        mac(MacroKind::Num, vec![Expression::Day, Expression::Hour, Expression::Minute, Expression::Second]),
    ]);
    assert_eq!(out, "<Num(2,1,1,1)>");
    let reset = fmt(vec![
        mac(MacroKind::SetTime, vec![Expression::U32(90061)]),
        mac(MacroKind::SetTime, vec![Expression::Other]),
        mac(MacroKind::Num, vec![Expression::Year]),
    ]);
    assert_eq!(reset, "<Num(2013)>");
}

#[test]
fn reset_time_moves_to_the_next_reset() {
    let later_today = fmt(vec![
        mac(MacroKind::SetResetTime, vec![Expression::U32(15)]),
        mac(MacroKind::Num, vec![Expression::Day, Expression::Hour]),
    ]);
    assert_eq!(later_today, "<Num(27,15)>");
    let tomorrow = fmt(vec![
        mac(MacroKind::SetResetTime, vec![Expression::U32(7)]),
        mac(MacroKind::Num, vec![Expression::Day, Expression::Hour]),
    ]);
    assert_eq!(tomorrow, "<Num(28,7)>");
    let friday = fmt(vec![
        mac(MacroKind::SetResetTime, vec![Expression::U32(15), Expression::U32(5)]),
        mac(MacroKind::Num, vec![Expression::Day, Expression::Weekday]),
    ]);
    assert_eq!(friday, "<Num(30,6)>");
}

#[test]
fn reset_time_to_an_hour_past_midnight_fails() {
    let out = fmt(vec![mac(MacroKind::SetResetTime, vec![Expression::U32(30)])]);
    assert_eq!(out, "<Error: macro decode fail (invalid macro, SetResetTime)>");
}

#[test]
fn parameters_and_comparisons() {
    let out = fmt(vec![mac(
        MacroKind::Num,
        vec![
            Expression::GlobalNumber(Box::new(Expression::U32(2))),
            Expression::GlobalString(Box::new(nested("x"))),
            Expression::LocalString(Box::new(Expression::Other)),
            Expression::Eq(Box::new(Expression::U32(1)), Box::new(Expression::U32(1))),
            Expression::Ne(Box::new(Expression::U32(1)), Box::new(Expression::U32(1))),
            Expression::Le(Box::new(nested("a")), Box::new(Expression::U32(3))),
            Expression::Unknown(0x0A),
        ],
    )]);
    assert_eq!(
        out,
        "<Num(<Global(2)>,<Global_S(\"x\")>,<Local_U(\"\")>,true,false,LessThanOrEqualTo(a,3),M#0A)>"
    );
}

#[test]
fn nested_string_closes_its_own_styles() {
    let inner = Expression::SeString(SeString {
        payloads: vec![mac(MacroKind::Bold, vec![Expression::U32(1)]), text("in")],
    });
    let out = fmt(vec![mac(MacroKind::String, vec![inner]), text("out")]);
    assert_eq!(out, "'''in'''out");
}

#[test]
fn typographic_dashes_are_tidied() {
    assert_eq!(fmt(vec![text("a–b─c “d”")]), "a-b—c \"d\"");
}

fn try_fmt(payloads: Vec<Item>) -> Option<String> {
    let mut lookups = Lookups::new();
    cgwiki::formatter::try_format_string(SeString { payloads }, &mut lookups)
}

#[test]
fn checked_formatting_gives_the_text() {
    assert_eq!(try_fmt(vec![text("a–b")]), Some("a-b".to_string()));
    assert_eq!(
        try_fmt(vec![mac(MacroKind::Bold, vec![])]),
        Some("<Error: macro decode fail (insufficient arguments, Bold)>".to_string())
    );
}

#[test]
fn checked_formatting_refuses_what_cannot_be_formatted() {
    assert_eq!(try_fmt(vec![mac(MacroKind::If, vec![Expression::U32(1), nested("a")])]), None);
    assert_eq!(try_fmt(vec![text("x"), mac(MacroKind::Switch, vec![])]), None);
    assert_eq!(
        try_fmt(vec![mac(
            MacroKind::Switch,
            vec![Expression::GlobalNumber(Box::new(Expression::U32(70))), nested("a"), nested("b")],
        )]),
        None
    );
    assert_eq!(
        try_fmt(vec![mac(
            MacroKind::Switch,
            vec![Expression::GlobalNumber(Box::new(Expression::U32(71))), nested("a")],
        )]),
        None
    );
    assert_eq!(try_fmt(vec![mac(MacroKind::Split, vec![nested("a"), nested("b")])]), None);
    assert_eq!(
        try_fmt(vec![mac(MacroKind::If, vec![nested("GreaterThan,("), nested("a"), nested("b")])]),
        None
    );
    assert_eq!(try_fmt(vec![mac(MacroKind::SetResetTime, vec![Expression::U32(300)])]), None);
    // A nested string that cannot be formatted stops the outer one too.
    let inner = Expression::SeString(SeString { payloads: vec![mac(MacroKind::Switch, vec![])] });
    assert_eq!(try_fmt(vec![mac(MacroKind::String, vec![inner])]), None);
}
