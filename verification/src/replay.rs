//! The recorded data of one play of a chart.
//!
//! Floating-point quantities (times, offsets, accuracy) are carried as the
//! IEEE-754 bit pattern of the `f32` they stand for: the library stores and
//! moves them, it never computes with them.

use vstd::prelude::*;

verus! {

/// One judged note of a recorded play.
#[derive(Clone, Debug, PartialEq, Eq)]
pub struct NoteRecord {
    /// Time of the judgement in seconds (bit pattern of an `f32`).
    pub time_bits: u32,
    /// Index of the judge line the note belongs to.
    pub line_id: usize,
    /// Index of the note on its line.
    pub note_id: usize,
    /// Name of the judgement ("Perfect", "Good", ...).
    pub judgment: String,
    /// Offset of the hit from the note's time, in milliseconds (bit pattern of an `f32`).
    pub offset_ms_bits: u32,
    /// For a hold note, how long it was held in seconds (bit pattern of an `f32`).
    pub hold_duration_bits: Option<u32>,
}

/// Everything recorded about one play of a chart.
#[derive(Clone, Debug, PartialEq, Eq)]
pub struct ReplayData {
    /// Identifier of the chart on the server, when it has one.
    pub chart_id: Option<i32>,
    /// Name of the chart.
    pub chart_name: String,
    /// The judged notes, in the order they were recorded.
    pub records: Vec<NoteRecord>,
    /// Final score, once the play is finalized.
    pub score: Option<i32>,
    /// Final accuracy in `[0, 1]` (bit pattern of an `f32`), once finalized.
    pub accuracy_bits: Option<u32>,
    /// Longest combo, once finalized.
    pub max_combo: Option<u32>,
    /// When the play happened, in seconds since the Unix epoch.
    pub timestamp: i64,
}

/// Reads the wall clock (`std::time::SystemTime::now()`), turns it into a
/// `chrono::DateTime<Utc>` through chrono's `From<SystemTime>` and returns
/// `DateTime::timestamp()` of it: whole seconds since the Unix epoch. That
/// conversion also takes clocks set before the epoch (as negative seconds).
/// The value depends on the moment of the call, so nothing is promised of it.
/// (chrono's conversion unwraps its own range check, which only a clock set
/// more than 262,000 years away from the epoch could fail.)
#[verifier::external_body]
fn current_unix_timestamp() -> i64 {
    chrono::DateTime::<chrono::Utc>::from(std::time::SystemTime::now()).timestamp()
}

/// The record that `add_record` / `add_hold_record` append.
pub open spec fn note_record(
    time_bits: u32,
    line_id: usize,
    note_id: usize,
    judgment: String,
    offset_ms_bits: u32,
    hold_duration_bits: Option<u32>,
) -> NoteRecord {
    NoteRecord { time_bits, line_id, note_id, judgment, offset_ms_bits, hold_duration_bits }
}

impl ReplayData {
    /// A replay that is about to be recorded: no records and no final
    /// results yet, taken at the given time.
    pub fn new_at(chart_id: Option<i32>, chart_name: String, timestamp: i64) -> (r: Self)
        ensures
            r.chart_id == chart_id,
            r.chart_name == chart_name,
            r.records@.len() == 0,
            r.score is None,
            r.accuracy_bits is None,
            r.max_combo is None,
            r.timestamp == timestamp,
    {
        ReplayData {
            chart_id,
            chart_name,
            records: Vec::new(),
            score: None,
            accuracy_bits: None,
            max_combo: None,
            timestamp,
        }
    }

    /// A replay that is about to be recorded, stamped with the current time.
    pub fn new(chart_id: Option<i32>, chart_name: String) -> (r: Self)
        ensures
            r.chart_id == chart_id,
            r.chart_name == chart_name,
            r.records@.len() == 0,
            r.score is None,
            r.accuracy_bits is None,
            r.max_combo is None,
    {
        let now = current_unix_timestamp();
        Self::new_at(chart_id, chart_name, now)
    }

    /// Appends the judgement of a tap-like note (no hold duration).
    pub fn add_record(
        &mut self,
        time_bits: u32,
        line_id: usize,
        note_id: usize,
        judgment: String,
        offset_ms_bits: u32,
    )
        ensures
            final(self).records@ == old(self).records@.push(
                note_record(time_bits, line_id, note_id, judgment, offset_ms_bits, None),
            ),
            final(self).records@.len() == old(self).records@.len() + 1,
            forall|i: int| 0 <= i < old(self).records@.len() ==> #[trigger] final(self).records@[i] == old(self).records@[i],
            final(self).records@.last().time_bits == time_bits,
            final(self).records@.last().line_id == line_id,
            final(self).records@.last().note_id == note_id,
            final(self).records@.last().judgment == judgment,
            final(self).records@.last().offset_ms_bits == offset_ms_bits,
            final(self).records@.last().hold_duration_bits is None,
            final(self).chart_id == old(self).chart_id,
            final(self).chart_name == old(self).chart_name,
            final(self).score == old(self).score,
            final(self).accuracy_bits == old(self).accuracy_bits,
            final(self).max_combo == old(self).max_combo,
            final(self).timestamp == old(self).timestamp,
    {
        self.records.push(
            NoteRecord {
                time_bits,
                line_id,
                note_id,
                judgment,
                offset_ms_bits,
                hold_duration_bits: None,
            },
        );
    }

    /// Appends the judgement of a hold note, with how long it was held.
    pub fn add_hold_record(
        &mut self,
        time_bits: u32,
        line_id: usize,
        note_id: usize,
        judgment: String,
        offset_ms_bits: u32,
        hold_duration_bits: u32,
    )
        ensures
            final(self).records@ == old(self).records@.push(
                note_record(
                    time_bits,
                    line_id,
                    note_id,
                    judgment,
                    offset_ms_bits,
                    Some(hold_duration_bits),
                ),
            ),
            final(self).records@.len() == old(self).records@.len() + 1,
            forall|i: int| 0 <= i < old(self).records@.len() ==> #[trigger] final(self).records@[i] == old(self).records@[i],
            final(self).records@.last().time_bits == time_bits,
            final(self).records@.last().line_id == line_id,
            final(self).records@.last().note_id == note_id,
            final(self).records@.last().judgment == judgment,
            final(self).records@.last().offset_ms_bits == offset_ms_bits,
            final(self).records@.last().hold_duration_bits == Some(hold_duration_bits),
            final(self).chart_id == old(self).chart_id,
            final(self).chart_name == old(self).chart_name,
            final(self).score == old(self).score,
            final(self).accuracy_bits == old(self).accuracy_bits,
            final(self).max_combo == old(self).max_combo,
            final(self).timestamp == old(self).timestamp,
    {
        self.records.push(
            NoteRecord {
                time_bits,
                line_id,
                note_id,
                judgment,
                offset_ms_bits,
                hold_duration_bits: Some(hold_duration_bits),
            },
        );
    }

    /// Stores the final results of the play; the records are left as they are.
    pub fn finalize(&mut self, score: i32, accuracy_bits: u32, max_combo: u32)
        ensures
            final(self).score == Some(score),
            final(self).accuracy_bits == Some(accuracy_bits),
            final(self).max_combo == Some(max_combo),
            final(self).records@ == old(self).records@,
            final(self).chart_id == old(self).chart_id,
            final(self).chart_name == old(self).chart_name,
            final(self).timestamp == old(self).timestamp,
    {
        self.score = Some(score);
        self.accuracy_bits = Some(accuracy_bits);
        self.max_combo = Some(max_combo);
    }
}

/// A recorded note keeps what it was recorded with, field by field: the
/// judgement belongs to the line and note it was given for, at the time and
/// offset given, and only a hold note carries a hold duration.
pub proof fn lemma_note_record_fields(
    time_bits: u32,
    line_id: usize,
    note_id: usize,
    judgment: String,
    offset_ms_bits: u32,
    hold_duration_bits: Option<u32>,
)
    ensures
        ({
            let r = note_record(time_bits, line_id, note_id, judgment, offset_ms_bits, hold_duration_bits);
            &&& r.time_bits == time_bits
            &&& r.line_id == line_id
            &&& r.note_id == note_id
            &&& r.judgment == judgment
            &&& r.offset_ms_bits == offset_ms_bits
            &&& r.hold_duration_bits == hold_duration_bits
        }),
{
}

/// Two records made with different lines or different notes are different
/// records: a judgement is never attached to another note.
pub proof fn lemma_note_records_distinguish_notes(
    time_bits: u32,
    line_a: usize,
    note_a: usize,
    line_b: usize,
    note_b: usize,
    judgment: String,
    offset_ms_bits: u32,
    hold_duration_bits: Option<u32>,
)
    requires
        line_a != line_b || note_a != note_b,
    ensures
        note_record(time_bits, line_a, note_a, judgment, offset_ms_bits, hold_duration_bits)
            != note_record(time_bits, line_b, note_b, judgment, offset_ms_bits, hold_duration_bits),
{
}

} // verus!
