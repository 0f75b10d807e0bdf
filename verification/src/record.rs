//! The records that a spreadsheet is read into.
//!
//! Every type here is a bundle of text cells. Its view is the sequence of
//! those cells in the order of the spreadsheet's columns, so that the slot a
//! column lands in can be read off the position in the view.

use vstd::prelude::*;
use crate::schema::{
    COLUMN_COUNT, FILENAME_COLUMN, FIRST_EVIDENCE_COLUMN, FIRST_TOPIC_COLUMN, TOPIC_COUNT,
};

verus! {

/// The evidence given for one annotated topic: three neighbouring columns.
#[derive(Debug)]
pub struct EvidenceSet {
    pub quotes: String,
    pub tables: String,
    pub reasoning: String,
}

impl View for EvidenceSet {
    type V = Seq<Seq<char>>;

    /// The three cells, in column order.
    open spec fn view(&self) -> Seq<Seq<char>> {
        seq![self.quotes@, self.tables@, self.reasoning@]
    }
}

/// One evidence set per annotated topic, in the order of the topics.
#[derive(Debug)]
pub struct SupportingEvidence {
    pub research_goal: EvidenceSet,
    pub target_condition: EvidenceSet,
    pub sensor_device: EvidenceSet,
    pub device_type: EvidenceSet,
    pub category: EvidenceSet,
    pub sensor_type: EvidenceSet,
    pub method: EvidenceSet,
    pub placement: EvidenceSet,
    pub measurement_variable: EvidenceSet,
    pub benefits: EvidenceSet,
    pub primary_purpose: EvidenceSet,
    pub performance_metrics: EvidenceSet,
    pub device_limitation: EvidenceSet,
    pub measurement_unit: EvidenceSet,
    pub measurement_precision: EvidenceSet,
}

impl View for SupportingEvidence {
    type V = Seq<Seq<char>>;

    /// The 45 evidence cells, in column order.
    open spec fn view(&self) -> Seq<Seq<char>> {
        seq![
            self.research_goal.quotes@, self.research_goal.tables@, self.research_goal.reasoning@,
            self.target_condition.quotes@, self.target_condition.tables@, self.target_condition.reasoning@,
            self.sensor_device.quotes@, self.sensor_device.tables@, self.sensor_device.reasoning@,
            self.device_type.quotes@, self.device_type.tables@, self.device_type.reasoning@,
            self.category.quotes@, self.category.tables@, self.category.reasoning@,
            self.sensor_type.quotes@, self.sensor_type.tables@, self.sensor_type.reasoning@,
            self.method.quotes@, self.method.tables@, self.method.reasoning@,
            self.placement.quotes@, self.placement.tables@, self.placement.reasoning@,
            self.measurement_variable.quotes@, self.measurement_variable.tables@, self.measurement_variable.reasoning@,
            self.benefits.quotes@, self.benefits.tables@, self.benefits.reasoning@,
            self.primary_purpose.quotes@, self.primary_purpose.tables@, self.primary_purpose.reasoning@,
            self.performance_metrics.quotes@, self.performance_metrics.tables@, self.performance_metrics.reasoning@,
            self.device_limitation.quotes@, self.device_limitation.tables@, self.device_limitation.reasoning@,
            self.measurement_unit.quotes@, self.measurement_unit.tables@, self.measurement_unit.reasoning@,
            self.measurement_precision.quotes@, self.measurement_precision.tables@, self.measurement_precision.reasoning@,
        ]
    }
}

impl SupportingEvidence {
    /// The evidence sets, in the order of the topics.
    pub open spec fn sets(&self) -> Seq<EvidenceSet> {
        seq![
            self.research_goal,
            self.target_condition,
            self.sensor_device,
            self.device_type,
            self.category,
            self.sensor_type,
            self.method,
            self.placement,
            self.measurement_variable,
            self.benefits,
            self.primary_purpose,
            self.performance_metrics,
            self.device_limitation,
            self.measurement_unit,
            self.measurement_precision,
        ]
    }
}

/// One publication with its annotations, as read from one spreadsheet row.
#[derive(Debug)]
pub struct ResearchRecord {
    // Bibliographic columns.
    pub title: String,
    pub authors: String,
    pub doi: String,
    pub doi_link: String,
    pub venue: String,
    pub citation_count: String,
    pub year: String,
    pub filename: String,
    // Annotated topics.
    pub research_goal: String,
    pub target_condition: String,
    pub has_sensor_device: String,
    pub device_type: String,
    pub category: String,
    pub sensor_type: String,
    pub method: String,
    pub placement: String,
    pub measurement_variable: String,
    pub benefits: String,
    pub primary_purpose: String,
    pub performance_metrics: String,
    pub device_limitation: String,
    pub measurement_unit: String,
    pub measurement_precision: String,
    // Evidence for the annotated topics.
    pub supporting_evidence: SupportingEvidence,
}

impl View for ResearchRecord {
    type V = Seq<Seq<char>>;

    /// The 68 cells of the record: cell `i` is what column `i` of the
    /// spreadsheet row was read into.
    open spec fn view(&self) -> Seq<Seq<char>> {
        seq![
            self.title@,
            self.authors@,
            self.doi@,
            self.doi_link@,
            self.venue@,
            self.citation_count@,
            self.year@,
            self.filename@,
            self.research_goal@,
            self.target_condition@,
            self.has_sensor_device@,
            self.device_type@,
            self.category@,
            self.sensor_type@,
            self.method@,
            self.placement@,
            self.measurement_variable@,
            self.benefits@,
            self.primary_purpose@,
            self.performance_metrics@,
            self.device_limitation@,
            self.measurement_unit@,
            self.measurement_precision@,
            self.supporting_evidence.research_goal.quotes@, self.supporting_evidence.research_goal.tables@, self.supporting_evidence.research_goal.reasoning@,
            self.supporting_evidence.target_condition.quotes@, self.supporting_evidence.target_condition.tables@, self.supporting_evidence.target_condition.reasoning@,
            self.supporting_evidence.sensor_device.quotes@, self.supporting_evidence.sensor_device.tables@, self.supporting_evidence.sensor_device.reasoning@,
            self.supporting_evidence.device_type.quotes@, self.supporting_evidence.device_type.tables@, self.supporting_evidence.device_type.reasoning@,
            self.supporting_evidence.category.quotes@, self.supporting_evidence.category.tables@, self.supporting_evidence.category.reasoning@,
            self.supporting_evidence.sensor_type.quotes@, self.supporting_evidence.sensor_type.tables@, self.supporting_evidence.sensor_type.reasoning@,
            self.supporting_evidence.method.quotes@, self.supporting_evidence.method.tables@, self.supporting_evidence.method.reasoning@,
            self.supporting_evidence.placement.quotes@, self.supporting_evidence.placement.tables@, self.supporting_evidence.placement.reasoning@,
            self.supporting_evidence.measurement_variable.quotes@, self.supporting_evidence.measurement_variable.tables@, self.supporting_evidence.measurement_variable.reasoning@,
            self.supporting_evidence.benefits.quotes@, self.supporting_evidence.benefits.tables@, self.supporting_evidence.benefits.reasoning@,
            self.supporting_evidence.primary_purpose.quotes@, self.supporting_evidence.primary_purpose.tables@, self.supporting_evidence.primary_purpose.reasoning@,
            self.supporting_evidence.performance_metrics.quotes@, self.supporting_evidence.performance_metrics.tables@, self.supporting_evidence.performance_metrics.reasoning@,
            self.supporting_evidence.device_limitation.quotes@, self.supporting_evidence.device_limitation.tables@, self.supporting_evidence.device_limitation.reasoning@,
            self.supporting_evidence.measurement_unit.quotes@, self.supporting_evidence.measurement_unit.tables@, self.supporting_evidence.measurement_unit.reasoning@,
            self.supporting_evidence.measurement_precision.quotes@, self.supporting_evidence.measurement_precision.tables@, self.supporting_evidence.measurement_precision.reasoning@,
        ]
    }
}

impl ResearchRecord {
    /// What the record says on each annotated topic, in the order of the
    /// topics.
    pub open spec fn topics(&self) -> Seq<Seq<char>> {
        seq![
            self.research_goal@,
            self.target_condition@,
            self.has_sensor_device@,
            self.device_type@,
            self.category@,
            self.sensor_type@,
            self.method@,
            self.placement@,
            self.measurement_variable@,
            self.benefits@,
            self.primary_purpose@,
            self.performance_metrics@,
            self.device_limitation@,
            self.measurement_unit@,
            self.measurement_precision@,
        ]
    }
}

/// The evidence cells stand topic by topic: the set of a topic takes three
/// neighbouring cells, and the sets follow each other in the order of the
/// topics.
pub proof fn lemma_evidence_layout(evidence: SupportingEvidence, topic: int)
    requires
        0 <= topic < TOPIC_COUNT,
    ensures
        evidence.sets().len() == TOPIC_COUNT,
        evidence@.len() == 3 * TOPIC_COUNT,
        evidence@.subrange(3 * topic, 3 * topic + 3) == evidence.sets()[topic]@,
{
    assert(evidence@.subrange(3 * topic, 3 * topic + 3) =~= evidence.sets()[topic]@);
}

/// The columns of a record: the bibliographic cells with the file name last
/// among them, then one cell per topic, then the evidence cells.
pub proof fn lemma_record_layout(record: ResearchRecord)
    ensures
        record@.len() == COLUMN_COUNT,
        record@[FILENAME_COLUMN as int] == record.filename@,
        record@.subrange(FIRST_TOPIC_COLUMN as int, FIRST_EVIDENCE_COLUMN as int)
            == record.topics(),
        record@.subrange(FIRST_EVIDENCE_COLUMN as int, COLUMN_COUNT as int)
            == record.supporting_evidence@,
{
    assert(record@.subrange(FIRST_TOPIC_COLUMN as int, FIRST_EVIDENCE_COLUMN as int)
        =~= record.topics());
    assert(record@.subrange(FIRST_EVIDENCE_COLUMN as int, COLUMN_COUNT as int)
        =~= record.supporting_evidence@);
}

/// The records of one spreadsheet, in file order, with their number.
#[derive(Debug)]
pub struct ParsedSpreadsheet {
    pub records: Vec<ResearchRecord>,
    pub total_count: usize,
}

impl View for ParsedSpreadsheet {
    type V = Seq<Seq<Seq<char>>>;

    /// The records as rows of cells.
    open spec fn view(&self) -> Seq<Seq<Seq<char>>> {
        Seq::new(self.records@.len(), |i: int| self.records@[i]@)
    }
}

impl ParsedSpreadsheet {
    /// The count is the number of records.
    pub open spec fn well_formed(&self) -> bool {
        self.total_count == self.records@.len()
    }

    /// Wraps `records` together with their number.
    pub fn from_records(records: Vec<ResearchRecord>) -> (parsed: ParsedSpreadsheet)
        ensures
            parsed.well_formed(),
            parsed.records == records,
    {
        ParsedSpreadsheet { total_count: records.len(), records }
    }
}

} // verus!
