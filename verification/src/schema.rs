//! The column layout shared by reading and writing.

use vstd::prelude::*;

verus! {

/// Number of columns that a spreadsheet row is read up to.
pub const COLUMN_COUNT: usize = 68;

/// Number of annotated topics.
pub const TOPIC_COUNT: usize = 15;

/// Column of a spreadsheet row that holds the file name.
pub const FILENAME_COLUMN: usize = 7;

/// Column of a spreadsheet row that holds the first annotated topic; the
/// other topics follow it in order.
pub const FIRST_TOPIC_COLUMN: usize = 8;

/// Column of a spreadsheet row that holds the first evidence cell; every
/// topic has three of them, in the order of the topics.
pub const FIRST_EVIDENCE_COLUMN: usize = 23;

/// Number of columns of a rating sheet: the file name and one rating per
/// topic.
pub const EXPORT_WIDTH: usize = 16;

/// The text in column `index` of `row`: the cell itself where the row has
/// one, and empty text where the row is too short.
pub open spec fn cell(row: Seq<Seq<char>>, index: int) -> Seq<char> {
    if 0 <= index < row.len() {
        row[index]
    } else {
        Seq::empty()
    }
}

/// `row` as the reader sees it: cut off after `COLUMN_COUNT` columns, or
/// filled up to that width with empty cells.
pub open spec fn padded_row(row: Seq<Seq<char>>) -> Seq<Seq<char>> {
    Seq::new(COLUMN_COUNT as nat, |i: int| cell(row, i))
}

/// The keys under which ratings are looked up, in the order of the topics.
pub open spec fn topic_keys() -> Seq<Seq<char>> {
    seq![
        "researchGoal"@,
        "targetCondition"@,
        "hasSensorDevice"@,
        "deviceType"@,
        "category"@,
        "sensorType"@,
        "method"@,
        "placement"@,
        "measurementVariable"@,
        "benefits"@,
        "primaryPurpose"@,
        "performanceMetrics"@,
        "deviceLimitation"@,
        "measurementUnit"@,
        "measurementPrecision"@,
    ]
}

/// The column titles of a rating sheet.
pub open spec fn export_titles() -> Seq<Seq<char>> {
    seq![
        "filename"@,
        "Research Goal"@,
        "Target condition"@,
        "Sensor, device, imaging technique, or labratory testing mentioned?"@,
        "Device / sensor / technique/ test/ inspection type"@,
        "Category"@,
        "Sensor Type"@,
        "Method"@,
        "Placement"@,
        "Measurement Variable"@,
        "Benefits of use"@,
        "Primary Purpose"@,
        "Performance Metrics"@,
        "Device Limitation"@,
        "Measurement Unit"@,
        "Measurement Precision"@,
    ]
}

/// The topic keys as text to look ratings up with.
pub fn topic_key_names() -> (names: [&'static str; 15])
    ensures
        names@.len() == TOPIC_COUNT,
        forall|k: int| 0 <= k < TOPIC_COUNT ==> (#[trigger] names@[k])@ == topic_keys()[k],
{
    [
        "researchGoal",
        "targetCondition",
        "hasSensorDevice",
        "deviceType",
        "category",
        "sensorType",
        "method",
        "placement",
        "measurementVariable",
        "benefits",
        "primaryPurpose",
        "performanceMetrics",
        "deviceLimitation",
        "measurementUnit",
        "measurementPrecision",
    ]
}

/// The column titles as text to write out.
pub fn export_title_names() -> (names: [&'static str; 16])
    ensures
        names@.len() == EXPORT_WIDTH,
        forall|k: int| 0 <= k < EXPORT_WIDTH ==> (#[trigger] names@[k])@ == export_titles()[k],
{
    [
        "filename",
        "Research Goal",
        "Target condition",
        "Sensor, device, imaging technique, or labratory testing mentioned?",
        "Device / sensor / technique/ test/ inspection type",
        "Category",
        "Sensor Type",
        "Method",
        "Placement",
        "Measurement Variable",
        "Benefits of use",
        "Primary Purpose",
        "Performance Metrics",
        "Device Limitation",
        "Measurement Unit",
        "Measurement Precision",
    ]
}

/// The text written for a topic that a review does not rate.
pub open spec fn unrated_text() -> Seq<char> {
    seq!['0']
}

/// No two topics share a key: a rating stands for one topic only.
pub proof fn lemma_topic_keys_differ()
    ensures
        topic_keys().len() == TOPIC_COUNT,
        forall|i: int, j: int|
            0 <= i < j < TOPIC_COUNT ==> #[trigger] topic_keys()[i] != #[trigger] topic_keys()[j],
{
    reveal_strlit("researchGoal");
    reveal_strlit("targetCondition");
    reveal_strlit("hasSensorDevice");
    reveal_strlit("deviceType");
    reveal_strlit("category");
    reveal_strlit("sensorType");
    reveal_strlit("method");
    reveal_strlit("placement");
    reveal_strlit("measurementVariable");
    reveal_strlit("benefits");
    reveal_strlit("primaryPurpose");
    reveal_strlit("performanceMetrics");
    reveal_strlit("deviceLimitation");
    reveal_strlit("measurementUnit");
    reveal_strlit("measurementPrecision");
    // Length and first letter together tell any two keys apart.
    assert(topic_keys()[0].len() == 12 && topic_keys()[0][0] == 'r');
    assert(topic_keys()[1].len() == 15 && topic_keys()[1][0] == 't');
    assert(topic_keys()[2].len() == 15 && topic_keys()[2][0] == 'h');
    assert(topic_keys()[3].len() == 10 && topic_keys()[3][0] == 'd');
    assert(topic_keys()[4].len() == 8 && topic_keys()[4][0] == 'c');
    assert(topic_keys()[5].len() == 10 && topic_keys()[5][0] == 's');
    assert(topic_keys()[6].len() == 6 && topic_keys()[6][0] == 'm');
    assert(topic_keys()[7].len() == 9 && topic_keys()[7][0] == 'p');
    assert(topic_keys()[8].len() == 19 && topic_keys()[8][0] == 'm');
    assert(topic_keys()[9].len() == 8 && topic_keys()[9][0] == 'b');
    assert(topic_keys()[10].len() == 14 && topic_keys()[10][0] == 'p');
    assert(topic_keys()[11].len() == 18 && topic_keys()[11][0] == 'p');
    assert(topic_keys()[12].len() == 16 && topic_keys()[12][0] == 'd');
    assert(topic_keys()[13].len() == 15 && topic_keys()[13][0] == 'm');
    assert(topic_keys()[14].len() == 20 && topic_keys()[14][0] == 'm');
    assert forall|i: int, j: int| 0 <= i < j < TOPIC_COUNT implies #[trigger] topic_keys()[i]
        != #[trigger] topic_keys()[j] by {
        let a = topic_keys()[i];
        let b = topic_keys()[j];
        assert(a.len() != b.len() || a[0] != b[0]);
    }
}

} // verus!
