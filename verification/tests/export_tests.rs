//! Section validation and the export cursor, plus the binary formatter.

use plugin_host::dlt::DltProxyMessage;
use plugin_host::export::{sections_valid, ExportAction, ExportCursor, ExportError, IndexSection};
use plugin_host::format::MsgBinaryFormatter;

#[test]
fn test_sections_valid_valid_single_section() {
    let sections = vec![IndexSection {
        first_line: 0,
        last_line: 2,
    }];
    assert!(sections_valid(&sections));
}

#[test]
fn test_sections_valid_validity_valid_sections_no_gap() {
    let sections = vec![
        IndexSection {
            first_line: 0,
            last_line: 2,
        },
        IndexSection {
            first_line: 3,
            last_line: 4,
        },
    ];
    assert!(sections_valid(&sections));
}

#[test]
fn test_sections_valid_invalidity_valid_single_section() {
    let sections = vec![IndexSection {
        first_line: 2,
        last_line: 1,
    }];
    assert!(!sections_valid(&sections));
}

#[test]
fn test_sections_valid_empty_sections() {
    let sections = vec![];
    assert!(sections_valid(&sections));
}

#[test]
fn test_sections_valid_invalidity_overlapping() {
    let sections = vec![
        IndexSection {
            first_line: 1,
            last_line: 4,
        },
        IndexSection {
            first_line: 9,
            last_line: 11,
        },
        IndexSection {
            first_line: 11,
            last_line: 15,
        },
    ];
    assert!(!sections_valid(&sections));
}

#[test]
fn cursor_walks_sections_in_order() {
    let sections = vec![
        IndexSection {
            first_line: 1,
            last_line: 2,
        },
        IndexSection {
            first_line: 4,
            last_line: 4,
        },
    ];
    let mut cursor = ExportCursor::new(sections).expect("valid");
    let mut actions: Vec<ExportAction> = Vec::new();
    loop {
        let action = cursor.on_item();
        if action == ExportAction::Stop {
            break;
        }
        actions.push(action);
    }
    assert_eq!(
        vec![
            ExportAction::Skip,
            ExportAction::Write,
            ExportAction::Write,
            ExportAction::Skip,
            ExportAction::Write,
        ],
        actions
    );
    assert_eq!(3, cursor.exported());
}

#[test]
fn invalid_sections_are_a_config_error() {
    let sections = vec![IndexSection {
        first_line: 9,
        last_line: 3,
    }];
    assert!(matches!(
        ExportCursor::new(sections),
        Err(ExportError::Config(_))
    ));
}

#[test]
fn formatter_writes_raw_content_bytes() {
    let mut formatter = MsgBinaryFormatter::new();
    let bytes = formatter.write_msg(&DltProxyMessage::new("log line \u{4}ECU1".to_string()));
    assert_eq!("log line \u{4}ECU1".as_bytes().to_vec(), bytes);
}
