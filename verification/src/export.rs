//! Writing ratings as a rating sheet.

use vstd::prelude::*;
use crate::csv_output::{
    csv_finishes, csv_line, finish_writer, new_writer, open_cells, write_row, written_bytes,
    written_rows,
};
use crate::error::ExportError;
use crate::record::ResearchRecord;
use crate::review::{rating_text, ReviewExport, ReviewExportView};
use crate::schema::{
    export_title_names, export_titles, lemma_topic_keys_differ, topic_key_names, topic_keys,
    EXPORT_WIDTH, FILENAME_COLUMN, FIRST_EVIDENCE_COLUMN, TOPIC_COUNT,
};

verus! {

/// The row of a rating sheet for one review: the file name, then the text
/// for each topic in the order of the topics.
pub open spec fn export_row(review: ReviewExportView) -> Seq<Seq<char>> {
    seq![review.filename] + Seq::new(
        TOPIC_COUNT as nat,
        |k: int| rating_text(review.ratings, topic_keys()[k]),
    )
}

/// What each of `reviews` stands for.
pub open spec fn review_views(reviews: Seq<ReviewExport>) -> Seq<ReviewExportView> {
    Seq::new(reviews.len(), |i: int| reviews[i]@)
}

/// The rows of a rating sheet: the titles, then one row per review in the
/// order of the reviews.
pub open spec fn export_table(reviews: Seq<ReviewExportView>) -> Seq<Seq<Seq<char>>> {
    seq![export_titles()] + Seq::new(reviews.len(), |i: int| export_row(reviews[i]))
}

/// The writer takes every row of `rows`, one after the other, and then
/// finishes.
pub open spec fn sheet_written(rows: Seq<Seq<Seq<char>>>) -> bool {
    &&& forall|i: int| 0 <= i < rows.len() ==> (#[trigger] csv_line(rows.take(i), rows[i])) is Some
    &&& csv_finishes(rows)
}

/// The bytes of a sheet with these rows: the line that the writer writes
/// for each row, one after the other.
pub open spec fn csv_text(rows: Seq<Seq<Seq<char>>>) -> Seq<u8>
    decreases rows.len(),
{
    if rows.len() == 0 {
        Seq::empty()
    } else {
        csv_text(rows.drop_last()) + csv_line(rows.drop_last(), rows.last()).unwrap()
    }
}

/// A sheet has the title row and one row per review, and every row has the
/// file-name column and one column per topic.
pub proof fn lemma_export_table_shape(reviews: Seq<ReviewExportView>)
    ensures
        export_table(reviews).len() == reviews.len() + 1,
        export_table(reviews)[0] == export_titles(),
        forall|i: int|
            0 <= i < reviews.len() ==> #[trigger] export_table(reviews)[i + 1] == export_row(
                reviews[i],
            ),
        forall|i: int|
            0 <= i <= reviews.len() ==> (#[trigger] export_table(reviews)[i]).len() == EXPORT_WIDTH,
{
    assert forall|i: int| 0 <= i <= reviews.len() implies (#[trigger] export_table(
        reviews,
    )[i]).len() == EXPORT_WIDTH by {
        if i > 0 {
            assert(export_table(reviews)[i] == export_row(reviews[i - 1]));
        }
    }
}

/// A topic that a review does not rate shows as the text `0`, and a topic
/// that it rates shows its rating.
pub proof fn lemma_unrated_topic_shows_zero(review: ReviewExportView, topic: int)
    requires
        0 <= topic < TOPIC_COUNT,
    ensures
        !review.ratings.contains_key(topic_keys()[topic]) ==> export_row(review)[topic + 1]
            == seq!['0'],
        review.ratings.contains_key(topic_keys()[topic]) ==> export_row(review)[topic + 1]
            == review.ratings[topic_keys()[topic]],
{
}

/// A rating shows in the column of its topic and in no other: rating one
/// topic changes that one cell of the review's row.
pub proof fn lemma_rating_lands_in_its_column(
    review: ReviewExportView,
    topic: int,
    rating: Seq<char>,
)
    requires
        0 <= topic < TOPIC_COUNT,
    ensures
        export_row(
            (ReviewExportView {
                filename: review.filename,
                ratings: review.ratings.insert(topic_keys()[topic], rating),
            }),
        ) == export_row(review).update(topic + 1, rating),
{
    lemma_topic_keys_differ();
    let rated = ReviewExportView {
        filename: review.filename,
        ratings: review.ratings.insert(topic_keys()[topic], rating),
    };
    assert forall|j: int| 0 <= j < EXPORT_WIDTH implies export_row(rated)[j] == export_row(
        review,
    ).update(topic + 1, rating)[j] by {
        if j > 0 && j != topic + 1 {
            if j - 1 < topic {
                assert(topic_keys()[j - 1] != topic_keys()[topic]);
            } else {
                assert(topic_keys()[topic] != topic_keys()[j - 1]);
            }
        }
    }
    assert(export_row(rated) =~= export_row(review).update(topic + 1, rating));
}

/// Reading and writing follow one order of topics. Take a record, and a
/// review that has the record's file name and rates every topic with the
/// text that the record holds for it: the review's row is then the record's
/// file name followed by its topics, which is the stretch of the record from
/// the file-name column to the last topic column.
pub proof fn lemma_export_follows_record_order(record: ResearchRecord, review: ReviewExportView)
    requires
        review.filename == record.filename@,
        forall|k: int|
            0 <= k < TOPIC_COUNT ==> review.ratings.contains_key(#[trigger] topic_keys()[k])
                && review.ratings[topic_keys()[k]] == record.topics()[k],
    ensures
        export_row(review) == seq![record.filename@] + record.topics(),
        export_row(review) == record@.subrange(
            FILENAME_COLUMN as int,
            FIRST_EVIDENCE_COLUMN as int,
        ),
{
    assert forall|j: int| 0 <= j < EXPORT_WIDTH implies export_row(review)[j] == (seq![
        record.filename@,
    ] + record.topics())[j] by {
        if j > 0 {
            assert(review.ratings.contains_key(topic_keys()[j - 1]));
        }
    }
    assert(export_row(review) =~= seq![record.filename@] + record.topics());
    assert(seq![record.filename@] + record.topics() =~= record@.subrange(
        FILENAME_COLUMN as int,
        FIRST_EVIDENCE_COLUMN as int,
    ));
}

/// The title row of a rating sheet.
pub fn header_row() -> (row: Vec<String>)
    ensures
        row.deep_view() == export_titles(),
        row@.len() == EXPORT_WIDTH,
{
    broadcast use vstd::string::to_string_from_display_ensures_for_str;

    let titles = export_title_names();
    let mut row: Vec<String> = Vec::new();
    let mut i: usize = 0;
    while i < EXPORT_WIDTH
        invariant
            i <= EXPORT_WIDTH,
            row@.len() == i,
            forall|j: int| 0 <= j < EXPORT_WIDTH ==> (#[trigger] titles@[j])@ == export_titles()[j],
            forall|j: int| 0 <= j < i ==> (#[trigger] row@[j])@ == export_titles()[j],
        decreases EXPORT_WIDTH - i,
    {
        row.push(titles[i].to_string());
        i += 1;
    }
    assert(row.deep_view() =~= export_titles());
    row
}

/// The row of a rating sheet for `review`. A topic that the review does not
/// rate shows as `0`; a rating under a key that is no topic is left out.
pub fn review_row(review: &ReviewExport) -> (row: Vec<String>)
    ensures
        row.deep_view() == export_row(review@),
        row@.len() == EXPORT_WIDTH,
{
    let fields = topic_key_names();
    let mut row: Vec<String> = Vec::new();
    row.push(review.filename.clone());
    let mut k: usize = 0;
    while k < TOPIC_COUNT
        invariant
            k <= TOPIC_COUNT,
            row@.len() == k + 1,
            row@[0]@ == review@.filename,
            forall|j: int| 0 <= j < TOPIC_COUNT ==> (#[trigger] fields@[j])@ == topic_keys()[j],
            forall|j: int|
                0 <= j < k ==> (#[trigger] row@[j + 1])@ == rating_text(
                    review@.ratings,
                    topic_keys()[j],
                ),
        decreases TOPIC_COUNT - k,
    {
        row.push(review.rating(fields[k]));
        k += 1;
    }
    assert forall|j: int| 0 <= j < row@.len() implies row.deep_view()[j] == export_row(
        review@,
    )[j] by {
        if j > 0 {
            assert(row@[(j - 1) + 1]@ == rating_text(review@.ratings, topic_keys()[j - 1]));
        }
    }
    assert(row.deep_view() =~= export_row(review@));
    row
}

/// Writes `reviews` as a rating sheet and gives back its bytes: the title
/// row, then one row per review in the order of the reviews.
///
/// Succeeds exactly when the writer takes every row of the sheet and then
/// finishes; the bytes are then the lines of the rows, one after the other.
/// Otherwise the writer's own words come back as the error.
pub fn export_reviews(reviews: Vec<ReviewExport>) -> (res: Result<Vec<u8>, ExportError>)
    ensures
        res is Ok <==> sheet_written(export_table(review_views(reviews@))),
        res matches Ok(bytes) ==> bytes@ == csv_text(export_table(review_views(reviews@))),
{
    let ghost table = export_table(review_views(reviews@));
    let mut writer = new_writer();

    let header = header_row();
    proof {
        assert(table[0] == export_titles());
        assert(table.take(0) =~= Seq::<Seq<Seq<char>>>::empty());
    }
    match write_row(&mut writer, &header) {
        Ok(()) => {},
        Err(e) => {
            assert(csv_line(table.take(0), table[0]) is None);
            return Err(ExportError::Serialize { detail: e.to_string() });
        },
    }
    proof {
        assert(table.take(1) =~= Seq::<Seq<Seq<char>>>::empty().push(export_titles()));
        assert(table.take(1).drop_last() =~= table.take(0));
        reveal_with_fuel(csv_text, 2);
    }

    let mut i: usize = 0;
    while i < reviews.len()
        invariant
            i <= reviews.len(),
            table == export_table(review_views(reviews@)),
            table.len() == reviews.len() + 1,
            open_cells(writer) == 0,
            written_rows(writer) == table.take(i + 1),
            written_bytes(writer) == csv_text(table.take(i + 1)),
            forall|j: int| 0 <= j <= i ==> (#[trigger] csv_line(table.take(j), table[j])) is Some,
        decreases reviews.len() - i,
    {
        let row = review_row(&reviews[i]);
        proof {
            assert(table[i + 1] == export_row(reviews@[i as int]@));
        }
        match write_row(&mut writer, &row) {
            Ok(()) => {},
            Err(e) => {
                assert(csv_line(table.take(i + 1), table[i + 1]) is None);
                return Err(ExportError::Serialize { detail: e.to_string() });
            },
        }
        proof {
            assert(table.take(i + 2) =~= table.take(i + 1).push(table[i + 1]));
            assert(table.take(i + 2).drop_last() =~= table.take(i + 1));
        }
        i += 1;
    }
    assert(table.take(reviews.len() + 1) =~= table);
    match finish_writer(writer) {
        Ok(bytes) => Ok(bytes),
        Err(detail) => Err(ExportError::Serialize { detail }),
    }
}

} // verus!
