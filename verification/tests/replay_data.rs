use phira_replay::replay::{NoteRecord, ReplayData};

#[test]
fn new_at_starts_without_records_or_results() {
    let r = ReplayData::new_at(Some(7), "Chart".to_string(), 1_700_000_000);
    assert_eq!(r.chart_id, Some(7));
    assert_eq!(r.chart_name, "Chart");
    assert!(r.records.is_empty());
    assert_eq!(r.score, None);
    assert_eq!(r.accuracy_bits, None);
    assert_eq!(r.max_combo, None);
    assert_eq!(r.timestamp, 1_700_000_000);
}

#[test]
fn new_is_stamped_with_the_current_time() {
    let r = ReplayData::new(None, "Now".to_string());
    // 2020-09-13 and 2200-01-01: the clock of any machine running this lies between.
    assert!(r.timestamp > 1_600_000_000);
    assert!(r.timestamp < 7_258_118_400);
    assert!(r.records.is_empty());
    assert_eq!(r.chart_id, None);
}

#[test]
fn records_are_appended_in_order() {
    let mut r = ReplayData::new_at(None, "C".to_string(), 0);
    r.add_record(1.5f32.to_bits(), 0, 3, "Perfect".to_string(), (-12.0f32).to_bits());
    r.add_hold_record(2.0f32.to_bits(), 1, 4, "Good".to_string(), 30.5f32.to_bits(), 0.75f32.to_bits());
    r.add_record(3.0f32.to_bits(), 2, 5, "Miss".to_string(), 0.0f32.to_bits());
    assert_eq!(r.records.len(), 3);
    assert_eq!(
        r.records[0],
        NoteRecord {
            time_bits: 1.5f32.to_bits(),
            line_id: 0,
            note_id: 3,
            judgment: "Perfect".to_string(),
            offset_ms_bits: (-12.0f32).to_bits(),
            hold_duration_bits: None,
        }
    );
    assert_eq!(r.records[1].hold_duration_bits, Some(0.75f32.to_bits()));
    assert_eq!(f32::from_bits(r.records[1].offset_ms_bits), 30.5);
    assert_eq!(r.records[2].judgment, "Miss");
    assert_eq!(r.records[2].hold_duration_bits, None);
    assert_eq!(r.score, None);
}

#[test]
fn finalize_sets_results_and_keeps_records() {
    let mut r = ReplayData::new_at(Some(1), "C".to_string(), 42);
    r.add_record(1.0f32.to_bits(), 0, 0, "Perfect".to_string(), 0);
    let before = r.records.clone();
    r.finalize(1_000_000, 0.9876f32.to_bits(), 321);
    assert_eq!(r.score, Some(1_000_000));
    assert_eq!(r.accuracy_bits.map(f32::from_bits), Some(0.9876f32));
    assert_eq!(r.max_combo, Some(321));
    assert_eq!(r.records, before);
    assert_eq!(r.timestamp, 42);
    assert_eq!(r.chart_id, Some(1));
}

#[test]
fn finalize_twice_keeps_the_last_results() {
    let mut r = ReplayData::new_at(None, "C".to_string(), 0);
    r.finalize(1, 0, 1);
    r.finalize(2, 5, 3);
    assert_eq!((r.score, r.accuracy_bits, r.max_combo), (Some(2), Some(5), Some(3)));
}
