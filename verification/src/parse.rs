//! Reading a spreadsheet into records.

use vstd::prelude::*;
use crate::csv_input::{csv_rows, next_record, open_reader, pending_rows, record_fields};
use crate::error::ParseError;
use crate::record::{EvidenceSet, ParsedSpreadsheet, ResearchRecord, SupportingEvidence};
use crate::schema::{cell, padded_row, COLUMN_COUNT};

verus! {

/// Every row of `rows` can be read.
pub open spec fn all_readable(rows: Seq<Option<Seq<Seq<char>>>>) -> bool {
    forall|i: int| 0 <= i < rows.len() ==> (#[trigger] rows[i]) is Some
}

/// Row `row` is the first of `rows` that cannot be read.
pub open spec fn first_unreadable(rows: Seq<Option<Seq<Seq<char>>>>, row: int) -> bool {
    &&& 0 <= row < rows.len()
    &&& rows[row] is None
    &&& forall|i: int| 0 <= i < row ==> (#[trigger] rows[i]) is Some
}

/// The records that readable rows are mapped to: one per row, in order, each
/// the row cut or filled to the width of the schema.
pub open spec fn records_of(rows: Seq<Option<Seq<Seq<char>>>>) -> Seq<Seq<Seq<char>>> {
    Seq::new(rows.len(), |i: int| padded_row(rows[i].unwrap()))
}

/// A row at least as wide as the schema is kept cell for cell up to that
/// width: every cell of the record is the raw text of its column.
pub proof fn lemma_wide_row_is_kept(row: Seq<Seq<char>>)
    requires
        row.len() >= COLUMN_COUNT,
    ensures
        padded_row(row) == row.take(COLUMN_COUNT as int),
{
    assert(padded_row(row) =~= row.take(COLUMN_COUNT as int));
}

/// A row narrower than the schema keeps its cells, and every column beyond
/// its width reads as empty text.
pub proof fn lemma_short_row_is_filled(row: Seq<Seq<char>>)
    requires
        row.len() < COLUMN_COUNT,
    ensures
        padded_row(row).len() == COLUMN_COUNT,
        padded_row(row).take(row.len() as int) == row,
        forall|index: int|
            row.len() <= index < COLUMN_COUNT ==> #[trigger] padded_row(row)[index] == Seq::<
                char,
            >::empty(),
{
    assert(padded_row(row).take(row.len() as int) =~= row);
}

/// Where every row can be read and is at least as wide as the schema, there
/// is one record per row, in the order of the rows, and each record holds
/// the raw text of its row's columns.
pub proof fn lemma_wide_rows_give_their_cells(rows: Seq<Option<Seq<Seq<char>>>>)
    requires
        all_readable(rows),
        forall|i: int| 0 <= i < rows.len() ==> (#[trigger] rows[i]).unwrap().len() >= COLUMN_COUNT,
    ensures
        records_of(rows).len() == rows.len(),
        forall|i: int|
            0 <= i < rows.len() ==> #[trigger] records_of(rows)[i] == rows[i].unwrap().take(
                COLUMN_COUNT as int,
            ),
{
    assert forall|i: int| 0 <= i < rows.len() implies #[trigger] records_of(rows)[i]
        == rows[i].unwrap().take(COLUMN_COUNT as int) by {
        lemma_wide_row_is_kept(rows[i].unwrap());
    }
}

/// The cell in column `index` of `record` as owned text, empty where the
/// record has no such column.
fn get_field(record: &csv::StringRecord, index: usize) -> (text: String)
    ensures
        text@ == cell(record_fields(*record), index as int),
{
    broadcast use vstd::string::to_string_from_display_ensures_for_str;

    proof {
        reveal_strlit("");
    }
    record.get(index).unwrap_or("").to_string()
}

/// Maps one row to a record by position: column `i` of the row becomes cell
/// `i` of the record, and a column that the row lacks becomes empty text.
/// Rows of any width are accepted; columns beyond the schema are dropped.
pub fn parse_csv_record(record: &csv::StringRecord) -> (res: Result<ResearchRecord, ParseError>)
    ensures
        res matches Ok(parsed) && parsed@ == padded_row(record_fields(*record)),
        res matches Ok(parsed) && parsed@.len() == COLUMN_COUNT,
{
    let parsed = ResearchRecord {
        title: get_field(record, 0),
        authors: get_field(record, 1),
        doi: get_field(record, 2),
        doi_link: get_field(record, 3),
        venue: get_field(record, 4),
        citation_count: get_field(record, 5),
        year: get_field(record, 6),
        filename: get_field(record, 7),
        research_goal: get_field(record, 8),
        target_condition: get_field(record, 9),
        has_sensor_device: get_field(record, 10),
        device_type: get_field(record, 11),
        category: get_field(record, 12),
        sensor_type: get_field(record, 13),
        method: get_field(record, 14),
        placement: get_field(record, 15),
        measurement_variable: get_field(record, 16),
        benefits: get_field(record, 17),
        primary_purpose: get_field(record, 18),
        performance_metrics: get_field(record, 19),
        device_limitation: get_field(record, 20),
        measurement_unit: get_field(record, 21),
        measurement_precision: get_field(record, 22),
        supporting_evidence: SupportingEvidence {
            research_goal: EvidenceSet {
                quotes: get_field(record, 23),
                tables: get_field(record, 24),
                reasoning: get_field(record, 25),
            },
            target_condition: EvidenceSet {
                quotes: get_field(record, 26),
                tables: get_field(record, 27),
                reasoning: get_field(record, 28),
            },
            sensor_device: EvidenceSet {
                quotes: get_field(record, 29),
                tables: get_field(record, 30),
                reasoning: get_field(record, 31),
            },
            device_type: EvidenceSet {
                quotes: get_field(record, 32),
                tables: get_field(record, 33),
                reasoning: get_field(record, 34),
            },
            category: EvidenceSet {
                quotes: get_field(record, 35),
                tables: get_field(record, 36),
                reasoning: get_field(record, 37),
            },
            sensor_type: EvidenceSet {
                quotes: get_field(record, 38),
                tables: get_field(record, 39),
                reasoning: get_field(record, 40),
            },
            method: EvidenceSet {
                quotes: get_field(record, 41),
                tables: get_field(record, 42),
                reasoning: get_field(record, 43),
            },
            placement: EvidenceSet {
                quotes: get_field(record, 44),
                tables: get_field(record, 45),
                reasoning: get_field(record, 46),
            },
            measurement_variable: EvidenceSet {
                quotes: get_field(record, 47),
                tables: get_field(record, 48),
                reasoning: get_field(record, 49),
            },
            benefits: EvidenceSet {
                quotes: get_field(record, 50),
                tables: get_field(record, 51),
                reasoning: get_field(record, 52),
            },
            primary_purpose: EvidenceSet {
                quotes: get_field(record, 53),
                tables: get_field(record, 54),
                reasoning: get_field(record, 55),
            },
            performance_metrics: EvidenceSet {
                quotes: get_field(record, 56),
                tables: get_field(record, 57),
                reasoning: get_field(record, 58),
            },
            device_limitation: EvidenceSet {
                quotes: get_field(record, 59),
                tables: get_field(record, 60),
                reasoning: get_field(record, 61),
            },
            measurement_unit: EvidenceSet {
                quotes: get_field(record, 62),
                tables: get_field(record, 63),
                reasoning: get_field(record, 64),
            },
            measurement_precision: EvidenceSet {
                quotes: get_field(record, 65),
                tables: get_field(record, 66),
                reasoning: get_field(record, 67),
            },
        },
    };
    assert(parsed@ =~= padded_row(record_fields(*record)));
    Ok(parsed)
}

/// Reads every row that `reader` still holds and maps each to a record.
///
/// Succeeds exactly when every pending row can be read, with one record per
/// row in the order of the rows. Otherwise fails on the first row that
/// cannot be read, and names it. Afterwards the reader may hold rows that
/// were never looked at.
pub fn read_records(reader: &mut csv::Reader<&[u8]>) -> (res: Result<ParsedSpreadsheet, ParseError>)
    ensures
        res is Ok <==> all_readable(pending_rows(*old(reader))),
        match res {
            Ok(parsed) => {
                &&& all_readable(pending_rows(*old(reader)))
                &&& parsed.well_formed()
                &&& parsed@ == records_of(pending_rows(*old(reader)))
                &&& pending_rows(*final(reader)).len() == 0
            },
            Err(ParseError::RowRead { row, .. }) => first_unreadable(
                pending_rows(*old(reader)),
                row as int,
            ),
            Err(ParseError::Io { .. }) => false,
        },
{
    let ghost rows = pending_rows(*reader);
    let mut records: Vec<ResearchRecord> = Vec::new();
    loop
        invariant
            rows == pending_rows(*old(reader)),
            records@.len() <= rows.len(),
            pending_rows(*reader) == rows.skip(records@.len() as int),
            forall|i: int|
                0 <= i < records@.len() ==> (#[trigger] rows[i]) is Some && records@[i]@
                    == padded_row(rows[i].unwrap()),
        decreases pending_rows(*reader).len(),
    {
        match next_record(reader) {
            None => {
                let parsed = ParsedSpreadsheet::from_records(records);
                assert(parsed@ =~= records_of(rows));
                return Ok(parsed);
            },
            Some(Err(e)) => {
                return Err(ParseError::RowRead { row: records.len(), detail: e.to_string() });
            },
            Some(Ok(record)) => {
                let parsed = parse_csv_record(&record)?;
                assert(rows.skip(records@.len() as int).drop_first() =~= rows.skip(
                    records@.len() as int + 1,
                ));
                records.push(parsed);
            },
        }
    }
}

/// Reads `data` as a spreadsheet: every line is a data row, rows may have any
/// width, and each row becomes one record.
///
/// Succeeds exactly when every row of `data` can be read; the records then
/// stand in file order, each equal to its row cut or filled to the width of
/// the schema. Otherwise fails with the index of the first unreadable row.
pub fn parse_spreadsheet(data: &[u8]) -> (res: Result<ParsedSpreadsheet, ParseError>)
    ensures
        res is Ok <==> all_readable(csv_rows(data@)),
        match res {
            Ok(parsed) => {
                &&& all_readable(csv_rows(data@))
                &&& parsed.well_formed()
                &&& parsed@ == records_of(csv_rows(data@))
            },
            Err(ParseError::RowRead { row, .. }) => first_unreadable(csv_rows(data@), row as int),
            Err(ParseError::Io { .. }) => false,
        },
{
    let mut reader = open_reader(data);
    read_records(&mut reader)
}

} // verus!
