use phira_replay::audio::{
    decode_plan, rescale_round_up, AudioStreamFormat, AUDIO_DECODING_SAMPLE_RATE, CH_LAYOUT_MONO,
    CH_LAYOUT_STEREO, SAMPLE_FMT_FLT,
};
use phira_replay::launch::{locate_replay_chart, player_name, replay_settings, respack_path, LaunchError};
use phira_replay::library::LocalChart;
use phira_replay::replay::ReplayData;
use phira_replay::score::score_text;

fn fmt(layout: u64, channels: i32, rate: i32) -> AudioStreamFormat {
    AudioStreamFormat { channel_layout: layout, channels, sample_fmt: 1, sample_rate: rate }
}

#[test]
fn compressed_decoding_is_stereo_at_decoding_rate() {
    let p = decode_plan(&fmt(0x3f, 6, 48000), false);
    assert_eq!(p.output, AudioStreamFormat {
        channel_layout: CH_LAYOUT_STEREO,
        channels: 2,
        sample_fmt: SAMPLE_FMT_FLT,
        sample_rate: AUDIO_DECODING_SAMPLE_RATE,
    });
    assert!(!p.high_quality);
    assert_eq!(AUDIO_DECODING_SAMPLE_RATE, 44100);
}

#[test]
fn uncompressed_decoding_keeps_the_input_shape() {
    let p = decode_plan(&fmt(0x3f, 6, 48000), true);
    assert_eq!(p.output, AudioStreamFormat { channel_layout: 0x3f, channels: 6, sample_fmt: SAMPLE_FMT_FLT, sample_rate: 48000 });
    assert!(p.high_quality);
    let mono = decode_plan(&fmt(0, 1, 22050), true).output;
    assert_eq!((mono.channel_layout, mono.channels, mono.sample_rate), (CH_LAYOUT_MONO, 1, 22050));
    let unknown = decode_plan(&fmt(0, 0, 96000), true).output;
    assert_eq!((unknown.channel_layout, unknown.channels), (CH_LAYOUT_STEREO, 2));
    let many = decode_plan(&fmt(0, 4, 44100), true).output;
    assert_eq!((many.channel_layout, many.channels), (CH_LAYOUT_STEREO, 4));
}

#[test]
fn rescale_rounds_up() {
    assert_eq!(rescale_round_up(1000, 44100, 48000), Some(919));
    assert_eq!(rescale_round_up(960, 44100, 48000), Some(882));
    assert_eq!(rescale_round_up(0, 44100, 48000), Some(0));
    assert_eq!(rescale_round_up(-1000, 44100, 48000), Some(-918));
    assert_eq!(rescale_round_up(7, 0, 3), Some(0));
    assert_eq!(rescale_round_up(i64::MAX, 2, 1), None);
    assert_eq!(rescale_round_up(i64::MIN, 1, 1), Some(i64::MIN));
    assert_eq!(rescale_round_up(i64::MAX, i64::MAX, i64::MAX), Some(i64::MAX));
}

#[test]
fn replay_chart_is_located_or_reported_missing() {
    let charts = vec![
        LocalChart { id: None, name: "A".to_string(), local_path: "a".to_string() },
        LocalChart { id: Some(4), name: "B".to_string(), local_path: "b".to_string() },
    ];
    let r = ReplayData::new_at(Some(4), "Renamed".to_string(), 0);
    assert_eq!(locate_replay_chart(&charts, &r), Ok(1));
    let r = ReplayData::new_at(None, "A".to_string(), 0);
    assert_eq!(locate_replay_chart(&charts, &r), Ok(0));
    let r = ReplayData::new_at(Some(5), "C".to_string(), 0);
    let e = locate_replay_chart(&charts, &r).unwrap_err();
    assert_eq!(e, LaunchError::ChartNotFound("C".to_string()));
    assert_eq!(e.message(), "找不到对应的铺面: C");
}

#[test]
fn player_defaults_to_guest() {
    assert_eq!(player_name(None), "Guest");
    assert_eq!(player_name(Some("Alice".to_string())), "Alice");
}

#[test]
fn respack_zero_is_builtin() {
    let packs = vec!["first".to_string(), "second".to_string()];
    assert_eq!(respack_path(0, "/data/respack", &packs), None);
    assert_eq!(respack_path(1, "/data/respack", &packs), Some("/data/respack/first".to_string()));
    assert_eq!(respack_path(2, "/data/respack", &packs), Some("/data/respack/second".to_string()));
}

#[test]
fn replay_settings_fix_aspect_ratio() {
    let packs = vec!["p".to_string()];
    let s = replay_settings(None, 1, "dir", &packs);
    assert_eq!(s.player_name, "Guest");
    assert_eq!(s.res_pack_path.as_deref(), Some("dir/p"));
    assert!(s.fix_aspect_ratio);
    let s = replay_settings(Some("Bob".to_string()), 0, "dir", &packs);
    assert_eq!(s.player_name, "Bob");
    assert_eq!(s.res_pack_path, None);
    assert!(s.fix_aspect_ratio);
}

#[test]
fn score_text_is_zero_padded_to_seven_digits() {
    for n in [0u32, 7, 42, 999_999, 1_000_000, 9_999_999, 10_000_000, 123_456_789, u32::MAX] {
        assert_eq!(score_text(n), format!("{:07}", n));
    }
    assert_eq!(score_text(1234), "0001234");
}
