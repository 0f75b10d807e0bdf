//! The CSV writer of the `csv` crate, as far as the exporter relies on it.
//!
//! Nothing in this file is proved. Each item states what the `csv` crate is
//! taken to do; the exporter is verified against these statements.

use vstd::prelude::*;

verus! {

/// A `csv::Writer` that collects its output in a vector of bytes.
///
/// The writer's own type has a parameter bound by `std::io::Write`, which
/// Verus does not take in a declaration of an outside type, so the writer is
/// held in a struct whose inside Verus does not look at.
#[verifier::external_body]
pub struct RowWriter {
    inner: csv::Writer<Vec<u8>>,
}

/// The rows that a writer has taken so far, in the order in which it took
/// them.
pub uninterp spec fn written_rows(writer: RowWriter) -> Seq<Seq<Seq<char>>>;

/// The bytes that a writer has taken so far, whether they still sit in its
/// buffer or have reached the vector below it.
pub uninterp spec fn written_bytes(writer: RowWriter) -> Seq<u8>;

/// The number of cells, whole or in part, that a writer has taken since it
/// last closed a row.
pub uninterp spec fn open_cells(writer: RowWriter) -> nat;

/// What `csv::Writer::write_record` does with `row` on a writer that
/// `csv::Writer::from_writer` set up over a vector and that has so far taken
/// the rows `before`: the line that it writes, terminator included, or `None`
/// where it refuses the row. A writer set up so holds every row to the width
/// of the first, which is why the rows before count.
pub uninterp spec fn csv_line(before: Seq<Seq<Seq<char>>>, row: Seq<Seq<char>>) -> Option<
    Seq<u8>,
>;

/// Whether `csv::Writer::into_inner` succeeds on such a writer once it has
/// taken `rows`.
pub uninterp spec fn csv_finishes(rows: Seq<Seq<Seq<char>>>) -> bool;

/// `csv::Writer::from_writer` on an empty vector: nothing is written and no
/// row is open.
#[verifier::external_body]
pub(crate) fn new_writer() -> (writer: RowWriter)
    ensures
        written_rows(writer) == Seq::<Seq<Seq<char>>>::empty(),
        written_bytes(writer) == Seq::<u8>::empty(),
        open_cells(writer) == 0,
{
    RowWriter { inner: csv::Writer::from_writer(vec![]) }
}

/// `csv::Writer::write_record` on a writer that stands at the start of a
/// row. Whether it takes `row` rests on the rows taken before and on `row`
/// alone. Where it does, the row joins the rows taken, its line is added to
/// what was written, and the writer stands at the start of the next row.
/// After a failure nothing is known of the writer.
#[verifier::external_body]
pub(crate) fn write_row(writer: &mut RowWriter, row: &Vec<String>) -> (res: Result<(), csv::Error>)
    requires
        open_cells(*old(writer)) == 0,
    ensures
        res is Ok <==> csv_line(written_rows(*old(writer)), row.deep_view()) is Some,
        res is Ok ==> written_rows(*final(writer)) == written_rows(*old(writer)).push(
            row.deep_view(),
        ),
        res is Ok ==> written_bytes(*final(writer)) == written_bytes(*old(writer)) + csv_line(
            written_rows(*old(writer)),
            row.deep_view(),
        ).unwrap(),
        res is Ok ==> open_cells(*final(writer)) == 0,
{
    writer.inner.write_record(row)
}

/// `csv::Writer::into_inner` on a writer that stands at the start of a row.
/// Whether it succeeds rests on the rows taken alone. On success the vector
/// holds every byte that the writer has taken; on failure the text of the
/// writer's error comes back.
#[verifier::external_body]
pub(crate) fn finish_writer(writer: RowWriter) -> (res: Result<Vec<u8>, String>)
    requires
        open_cells(writer) == 0,
    ensures
        res is Ok <==> csv_finishes(written_rows(writer)),
        res matches Ok(bytes) ==> bytes@ == written_bytes(writer),
{
    writer.inner.into_inner().map_err(|e| e.to_string())
}

} // verus!
