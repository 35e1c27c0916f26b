use cgwiki::lookup::class_job_entry;
use cgwiki::sheet_detail::{get_sheet_detail, get_shift_offset, schema_covers_columns, ColumnDefinition, ColumnKind};
use cgwiki::string_process::{apply_fragments, clean_str};

fn col(kind: ColumnKind, offset: u16) -> ColumnDefinition {
    ColumnDefinition { kind, offset }
}

fn names(list: &[&str]) -> Vec<String> {
    list.iter().map(|s| s.to_string()).collect()
}

#[test]
fn shift_offsets_count_bits() {
    assert_eq!(get_shift_offset(&col(ColumnKind::UInt32, 0)), 0);
    assert_eq!(get_shift_offset(&col(ColumnKind::String, 4)), 32);
    assert_eq!(get_shift_offset(&col(ColumnKind::PackedBool0, 8)), 64);
    assert_eq!(get_shift_offset(&col(ColumnKind::PackedBool1, 8)), 65);
    assert_eq!(get_shift_offset(&col(ColumnKind::PackedBool7, 8)), 71);
    assert_eq!(get_shift_offset(&col(ColumnKind::Bool, 65535)), 524280);
}

#[test]
fn columns_are_named_in_position_order() {
    // File order differs from position order: the schema names follow positions.
    let columns = vec![
        col(ColumnKind::String, 8),
        col(ColumnKind::UInt8, 0),
        col(ColumnKind::PackedBool1, 4),
        col(ColumnKind::PackedBool0, 4),
    ];
    let detail = get_sheet_detail(&columns, &names(&["#", "Level", "IsA", "IsB", "Name"]));
    let got: Vec<(String, ColumnDefinition)> = detail.col_def_list.clone();
    assert_eq!(got.len(), 4);
    assert_eq!(got[0], ("Name".to_string(), columns[0]));
    assert_eq!(got[1], ("Level".to_string(), columns[1]));
    assert_eq!(got[2], ("IsB".to_string(), columns[2]));
    assert_eq!(got[3], ("IsA".to_string(), columns[3]));

    assert_eq!(detail.column_definition("IsA"), Some(columns[3]));
    assert_eq!(detail.column_definition("Missing"), None);
    assert_eq!(detail.column_position("IsB"), Some(2));
    assert_eq!(detail.column_position("Missing"), None);
    assert_eq!(detail.column_name(0), Some("Name".to_string()));
    assert_eq!(detail.column_name(4), None);
}

#[test]
fn empty_sheet_has_no_columns() {
    let detail = get_sheet_detail(&vec![], &names(&["#"]));
    assert!(detail.col_def_list.is_empty());
    assert_eq!(detail.column_name(0), None);
}

#[test]
fn class_job_names() {
    assert_eq!(class_job_entry(0, None), Some("adventurer".to_string()));
    assert_eq!(class_job_entry(0, Some("Ignored".to_string())), Some("adventurer".to_string()));
    assert_eq!(class_job_entry(19, Some("Paladin".to_string())), Some("paladin".to_string()));
    assert_eq!(class_job_entry(40, Some("SAGE".to_string())), Some("sage".to_string()));
    assert_eq!(class_job_entry(3, None), None);
}

#[test]
fn tidying_replaces_fragments() {
    assert_eq!(clean_str("a─b"), "a—b");
    assert_eq!(clean_str("“quoted”"), "\"quoted\"");
    assert_eq!(clean_str("Hello, <Global(1)>!"), "Hello, [Forename] [Surname]!");
    assert_eq!(clean_str("[Limsa GC Title][Gridania GC Title][Ul'dah GC Title]"), "[GC Title]");
    assert_eq!(
        clean_str("<IfLimsaGC><Head([Limsa GC Title])> [Surname]</IfLimsaGC><IfGridaniaGC><Head([Gridania GC Title])> [Surname]</IfGridaniaGC><IfUldahGC><Head([Ul'dah GC Title])> [Surname]</IfUldahGC>"),
        "<Head([GC Title])> [Surname]"
    );
}

#[test]
fn tidying_leaves_other_text_alone() {
    assert_eq!(clean_str(""), "");
    assert_eq!(clean_str("plain text, ünïcödé 漢字"), "plain text, ünïcödé 漢字");
    assert_eq!(clean_str("<Global(2)>"), "<Global(2)>");
}

#[test]
fn tidying_handles_repeated_and_adjacent_fragments() {
    assert_eq!(clean_str("––x––"), "--x--");
    assert_eq!(clean_str("“a”–“b”"), "\"a\"-\"b\"");
}

#[test]
fn schema_must_name_every_column() {
    let columns = vec![col(ColumnKind::UInt8, 0), col(ColumnKind::UInt8, 1)];
    assert!(schema_covers_columns(&columns, &names(&["#", "A", "B"])));
    assert!(!schema_covers_columns(&columns, &names(&["#", "A"])));
    assert!(!schema_covers_columns(&columns, &names(&[])));
    assert!(schema_covers_columns(&vec![], &names(&[])));
}

#[test]
fn fragments_are_applied_where_reported() {
    assert_eq!(apply_fragments("a–b", &vec![(1, 4, 1)]), "a-b");
    assert_eq!(apply_fragments("––", &vec![(0, 3, 1), (3, 6, 1)]), "--");
    // A match that starts before the end of the last one replaced is passed over.
    assert_eq!(apply_fragments("––", &vec![(0, 3, 1), (0, 3, 1)]), "-–");
    assert_eq!(apply_fragments("x", &vec![]), "x");
}
