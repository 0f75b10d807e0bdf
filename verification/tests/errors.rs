use research_sheet::parse::parse_spreadsheet;
use research_sheet::{ExportError, ParseError};

#[test]
fn open_failure_reads_as_text() {
    let error = ParseError::Io { detail: "No such file or directory (os error 2)".to_string() };
    assert_eq!(error.message(), "Failed to open file: No such file or directory (os error 2)");
}

#[test]
fn row_failure_reads_as_text() {
    let error = ParseError::RowRead { row: 3, detail: "bad row".to_string() };
    assert_eq!(error.message(), "Failed to read CSV record: bad row");
}

#[test]
fn row_failure_carries_the_readers_words() {
    let error = parse_spreadsheet(b"a,b\n\xff\xff,c\n").unwrap_err();
    let text = error.message();
    assert!(text.starts_with("Failed to read CSV record: "));
    assert!(text.contains("invalid UTF-8"));
    match error {
        ParseError::RowRead { row, detail } => {
            assert_eq!(row, 1);
            assert_eq!(text, format!("Failed to read CSV record: {}", detail));
        }
        ParseError::Io { .. } => panic!("a read of bytes opens no file"),
    }
}

#[test]
fn write_failure_reads_as_text() {
    let error = ExportError::Serialize { detail: "buffer gone".to_string() };
    assert_eq!(error.message(), "buffer gone");
}
