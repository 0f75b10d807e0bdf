//! The CSV reader of the `csv` crate, as far as the parser relies on it.
//!
//! Nothing in this file is proved. Each item states what the `csv` crate is
//! taken to do; the parser is verified against these statements.

use vstd::prelude::*;

verus! {

/// One row as the `csv` crate hands it out: `csv::StringRecord`.
#[verifier::external_type_specification]
#[verifier::external_body]
pub struct ExStringRecord(csv::StringRecord);

/// The streaming reader of the `csv` crate: `csv::Reader`.
#[verifier::external_type_specification]
#[verifier::external_body]
#[verifier::reject_recursive_types(R)]
pub struct ExReader<R>(csv::Reader<R>);

/// The error of the `csv` crate: `csv::Error`.
#[verifier::external_type_specification]
#[verifier::external_body]
pub struct ExError(csv::Error);

/// The cells that a `csv::StringRecord` holds, in column order.
pub uninterp spec fn record_fields(record: csv::StringRecord) -> Seq<Seq<char>>;

/// The rows that a reader has yet to hand out, in file order. A row that
/// the reader will fail on stands as `None`.
pub uninterp spec fn pending_rows(reader: csv::Reader<&[u8]>) -> Seq<Option<Seq<Seq<char>>>>;

/// The rows that the `csv` crate finds in `data` when it reads every line as
/// a data row and accepts rows of any width. A row that it cannot hand out as
/// text stands as `None`.
pub uninterp spec fn csv_rows(data: Seq<u8>) -> Seq<Option<Seq<Seq<char>>>>;

/// `csv::StringRecord::get`: the cell in column `i`, or `None` where the
/// record has no such column.
pub assume_specification<'a>[ csv::StringRecord::get ](
    record: &'a csv::StringRecord,
    i: usize,
) -> (res: Option<&'a str>)
    ensures
        match res {
            Some(text) => i < record_fields(*record).len() && text@ == record_fields(*record)[i as int],
            None => i >= record_fields(*record).len(),
        },
;

/// `csv::ReaderBuilder::from_reader` over a byte slice, with
/// `has_headers(false)` and `flexible(true)`: the reader starts with every
/// row of `data` pending.
#[verifier::external_body]
pub(crate) fn open_reader<'a>(data: &'a [u8]) -> (reader: csv::Reader<&'a [u8]>)
    ensures
        pending_rows(reader) == csv_rows(data@),
{
    csv::ReaderBuilder::new().has_headers(false).flexible(true).from_reader(data)
}

/// `csv::Reader::records` followed by one `next`: hands out the first pending
/// row, or the error that the reader met on it, and `None` once no row is
/// pending. Either way the row is no longer pending afterwards.
#[verifier::external_body]
pub(crate) fn next_record(reader: &mut csv::Reader<&[u8]>) -> (res: Option<
    Result<csv::StringRecord, csv::Error>,
>)
    ensures
        match res {
            Some(Ok(record)) => {
                &&& pending_rows(*old(reader)).len() > 0
                &&& pending_rows(*old(reader))[0] == Some(record_fields(record))
                &&& pending_rows(*final(reader)) == pending_rows(*old(reader)).drop_first()
            },
            Some(Err(_)) => {
                &&& pending_rows(*old(reader)).len() > 0
                &&& pending_rows(*old(reader))[0] is None
                &&& pending_rows(*final(reader)) == pending_rows(*old(reader)).drop_first()
            },
            None => {
                &&& pending_rows(*old(reader)).len() == 0
                &&& pending_rows(*final(reader)).len() == 0
            },
        },
{
    reader.records().next()
}

} // verus!
