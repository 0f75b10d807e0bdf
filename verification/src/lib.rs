//! Fixed-schema mapping between annotation spreadsheets and research records,
//! and between the ratings of a review and the rows of a rating sheet.
//!
//! A spreadsheet row is read by position: column `i` of the row lands in slot
//! `i` of the record, and a column that the row lacks reads as empty text.
//! Ratings are written out in the order of the annotated topics.

pub mod csv_input;
pub mod csv_output;
pub mod error;
pub mod export;
pub mod parse;
pub mod record;
pub mod review;
pub mod schema;

pub use error::{ExportError, ParseError};
pub use export::{export_reviews, header_row, review_row};
pub use parse::{parse_csv_record, parse_spreadsheet, read_records};
pub use record::{EvidenceSet, ParsedSpreadsheet, ResearchRecord, SupportingEvidence};
pub use review::ReviewExport;
pub use schema::{COLUMN_COUNT, EXPORT_WIDTH, TOPIC_COUNT};
