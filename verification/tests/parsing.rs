use research_sheet::parse::{parse_csv_record, parse_spreadsheet, read_records};
use research_sheet::{ParseError, ParsedSpreadsheet, ResearchRecord, COLUMN_COUNT};

/// A row of `width` cells: the first twelve as in a real sheet, the others
/// named after their column.
fn sample_cells(width: usize) -> Vec<String> {
    let head = [
        "T", "A", "10.1/x", "link", "V", "5", "2020", "f.pdf", "goal", "cond", "yes", "dtype",
    ];
    let mut cells = Vec::new();
    for column in 0..width {
        if column < head.len() {
            cells.push(head[column].to_string());
        } else {
            cells.push(format!("c{}", column));
        }
    }
    cells
}

fn line(cells: &[String]) -> String {
    let mut text = cells.join(",");
    text.push('\n');
    text
}

/// The cells of a record in column order, read field by field.
fn cells_of(record: &ResearchRecord) -> Vec<String> {
    let e = &record.supporting_evidence;
    let sets = [
        &e.research_goal,
        &e.target_condition,
        &e.sensor_device,
        &e.device_type,
        &e.category,
        &e.sensor_type,
        &e.method,
        &e.placement,
        &e.measurement_variable,
        &e.benefits,
        &e.primary_purpose,
        &e.performance_metrics,
        &e.device_limitation,
        &e.measurement_unit,
        &e.measurement_precision,
    ];
    let mut cells = vec![
        record.title.clone(),
        record.authors.clone(),
        record.doi.clone(),
        record.doi_link.clone(),
        record.venue.clone(),
        record.citation_count.clone(),
        record.year.clone(),
        record.filename.clone(),
        record.research_goal.clone(),
        record.target_condition.clone(),
        record.has_sensor_device.clone(),
        record.device_type.clone(),
        record.category.clone(),
        record.sensor_type.clone(),
        record.method.clone(),
        record.placement.clone(),
        record.measurement_variable.clone(),
        record.benefits.clone(),
        record.primary_purpose.clone(),
        record.performance_metrics.clone(),
        record.device_limitation.clone(),
        record.measurement_unit.clone(),
        record.measurement_precision.clone(),
    ];
    for set in sets {
        cells.push(set.quotes.clone());
        cells.push(set.tables.clone());
        cells.push(set.reasoning.clone());
    }
    cells
}

fn parse_text(text: &str) -> ParsedSpreadsheet {
    match parse_spreadsheet(text.as_bytes()) {
        Ok(parsed) => parsed,
        Err(e) => panic!("{}", e.message()),
    }
}

#[test]
fn full_row_lands_field_by_field() {
    let cells = sample_cells(68);
    let parsed = parse_text(&line(&cells));
    assert_eq!(parsed.records.len(), 1);
    let record = &parsed.records[0];
    assert_eq!(record.title, "T");
    assert_eq!(record.authors, "A");
    assert_eq!(record.doi, "10.1/x");
    assert_eq!(record.doi_link, "link");
    assert_eq!(record.venue, "V");
    assert_eq!(record.citation_count, "5");
    assert_eq!(record.year, "2020");
    assert_eq!(record.filename, "f.pdf");
    assert_eq!(record.research_goal, "goal");
    assert_eq!(record.target_condition, "cond");
    assert_eq!(record.has_sensor_device, "yes");
    assert_eq!(record.device_type, "dtype");
    assert_eq!(record.category, "c12");
    assert_eq!(record.method, "c14");
    assert_eq!(record.measurement_precision, "c22");
    assert_eq!(record.supporting_evidence.research_goal.quotes, "c23");
    assert_eq!(record.supporting_evidence.research_goal.tables, "c24");
    assert_eq!(record.supporting_evidence.research_goal.reasoning, "c25");
    assert_eq!(record.supporting_evidence.sensor_device.quotes, "c29");
    assert_eq!(record.supporting_evidence.method.reasoning, "c43");
    assert_eq!(record.supporting_evidence.measurement_precision.quotes, "c65");
    assert_eq!(record.supporting_evidence.measurement_precision.tables, "c66");
    assert_eq!(record.supporting_evidence.measurement_precision.reasoning, "c67");
    assert_eq!(cells_of(record), cells);
}

#[test]
fn short_row_fills_with_empty_text() {
    let cells = sample_cells(10);
    let parsed = parse_text(&line(&cells));
    assert_eq!(parsed.total_count, 1);
    let record = &parsed.records[0];
    assert_eq!(record.title, "T");
    assert_eq!(record.target_condition, "cond");
    assert_eq!(record.has_sensor_device, "");
    assert_eq!(record.category, "");
    let got = cells_of(record);
    assert_eq!(got.len(), COLUMN_COUNT);
    for column in 0..COLUMN_COUNT {
        if column < 10 {
            assert_eq!(got[column], cells[column]);
        } else {
            assert_eq!(got[column], "");
        }
    }
}

#[test]
fn wide_row_drops_columns_beyond_the_schema() {
    let cells = sample_cells(70);
    let parsed = parse_text(&line(&cells));
    let record = &parsed.records[0];
    assert_eq!(cells_of(record), cells[..68].to_vec());
}

#[test]
fn every_line_is_a_data_row() {
    let text = line(&sample_cells(68));
    let parsed = parse_text(&text);
    assert_eq!(parsed.records.len(), 1);
    assert_eq!(parsed.total_count, 1);
    assert_eq!(parsed.records[0].title, "T");
}

#[test]
fn rows_come_in_file_order_with_their_count() {
    let mut text = String::new();
    for row in 0..5 {
        let mut cells = sample_cells(68);
        cells[0] = format!("title {}", row);
        text.push_str(&line(&cells));
    }
    let parsed = parse_text(&text);
    assert_eq!(parsed.total_count, 5);
    assert_eq!(parsed.records.len(), 5);
    for row in 0..5 {
        assert_eq!(parsed.records[row].title, format!("title {}", row));
    }
}

#[test]
fn rows_of_different_width_are_accepted() {
    let mut text = line(&sample_cells(68));
    text.push_str(&line(&sample_cells(3)));
    text.push_str(&line(&sample_cells(30)));
    let parsed = parse_text(&text);
    assert_eq!(parsed.total_count, 3);
    assert_eq!(parsed.records[1].doi, "10.1/x");
    assert_eq!(parsed.records[1].doi_link, "");
    assert_eq!(parsed.records[2].supporting_evidence.target_condition.quotes, "c26");
    assert_eq!(parsed.records[2].supporting_evidence.device_type.quotes, "");
}

#[test]
fn empty_input_gives_no_records() {
    let parsed = parse_text("");
    assert_eq!(parsed.total_count, 0);
    assert!(parsed.records.is_empty());
}

#[test]
fn cells_are_kept_as_raw_text() {
    let text = "\"  padded  \",\"a,b\",\"say \"\"hi\"\"\",\"two\nlines\",MiXeD,007\n";
    let parsed = parse_text(text);
    assert_eq!(parsed.total_count, 1);
    let record = &parsed.records[0];
    assert_eq!(record.title, "  padded  ");
    assert_eq!(record.authors, "a,b");
    assert_eq!(record.doi, "say \"hi\"");
    assert_eq!(record.doi_link, "two\nlines");
    assert_eq!(record.venue, "MiXeD");
    assert_eq!(record.citation_count, "007");
    assert_eq!(record.year, "");
}

#[test]
fn unreadable_row_stops_the_whole_read() {
    let mut data = Vec::new();
    data.extend_from_slice(b"first,row\n");
    data.extend_from_slice(b"second,row\n");
    data.extend_from_slice(b"bad,\xff\xfe\n");
    data.extend_from_slice(b"fourth,row\n");
    match parse_spreadsheet(&data) {
        Err(ParseError::RowRead { row, detail }) => {
            assert_eq!(row, 2);
            assert!(!detail.is_empty());
        }
        other => panic!("expected a row error, got {:?}", other),
    }
}

#[test]
fn unreadable_first_row_has_index_zero() {
    match parse_spreadsheet(b"\xff,x\nok,row\n") {
        Err(ParseError::RowRead { row, .. }) => assert_eq!(row, 0),
        other => panic!("expected a row error, got {:?}", other),
    }
}

#[test]
fn record_from_a_string_record() {
    let record = csv::StringRecord::from(vec!["T", "A", "d"]);
    let parsed = parse_csv_record(&record).unwrap();
    assert_eq!(parsed.title, "T");
    assert_eq!(parsed.authors, "A");
    assert_eq!(parsed.doi, "d");
    assert_eq!(parsed.doi_link, "");
    assert_eq!(parsed.supporting_evidence.measurement_precision.reasoning, "");
}

#[test]
fn record_from_an_empty_string_record() {
    let record = csv::StringRecord::new();
    let parsed = parse_csv_record(&record).unwrap();
    for cell in cells_of(&parsed) {
        assert_eq!(cell, "");
    }
}

#[test]
fn records_from_a_reader() {
    let text = "a,b\nc,d\n";
    let mut reader =
        csv::ReaderBuilder::new().has_headers(false).flexible(true).from_reader(text.as_bytes());
    let parsed = read_records(&mut reader).unwrap();
    assert_eq!(parsed.total_count, 2);
    assert_eq!(parsed.records[0].title, "a");
    assert_eq!(parsed.records[1].authors, "d");
    let again = read_records(&mut reader).unwrap();
    assert_eq!(again.total_count, 0);
}

#[test]
fn from_records_counts() {
    let first = parse_csv_record(&csv::StringRecord::from(vec!["x"])).unwrap();
    let second = parse_csv_record(&csv::StringRecord::from(vec!["y"])).unwrap();
    let parsed = ParsedSpreadsheet::from_records(vec![first, second]);
    assert_eq!(parsed.total_count, 2);
    assert_eq!(parsed.records[1].title, "y");
}
