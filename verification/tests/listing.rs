use phira_replay::library::{
    chart_folders, chart_replays, find_local_chart, remove_replay, replay_time_label, replays_of_chart,
    sort_newest_first, time_label_or_unknown, ChartFolder, LocalChart, ReplayEntry, ReplayPage,
};
use phira_replay::names::{display_name, name_precedes};
use phira_replay::replay::ReplayData;

fn replay(id: Option<i32>, name: &str, ts: i64) -> ReplayData {
    ReplayData::new_at(id, name.to_string(), ts)
}

fn entry(file: &str, name: &str, ts: i64) -> ReplayEntry {
    ReplayEntry { file: file.to_string(), data: replay(None, name, ts) }
}

fn files(v: &[ReplayEntry]) -> Vec<&str> {
    v.iter().map(|e| e.file.as_str()).collect()
}

#[test]
fn newest_first_orders_by_time_and_keeps_ties_in_place() {
    let v = vec![
        entry("a", "X", 5),
        entry("b", "X", 9),
        entry("c", "Y", 5),
        entry("d", "X", 7),
        entry("e", "Y", 9),
    ];
    let r = sort_newest_first(v);
    assert_eq!(files(&r), vec!["b", "e", "d", "a", "c"]);
}

#[test]
fn newest_first_handles_empty_and_negative_times() {
    assert!(sort_newest_first(Vec::new()).is_empty());
    let r = sort_newest_first(vec![entry("old", "X", -10), entry("new", "X", i64::MAX), entry("mid", "X", 0)]);
    assert_eq!(files(&r), vec!["new", "mid", "old"]);
}

#[test]
fn replays_of_chart_keeps_only_that_chart_in_order() {
    let v = vec![entry("a", "X", 1), entry("b", "Y", 2), entry("c", "X", 3), entry("d", "x", 4)];
    let r = replays_of_chart(v, &"X".to_string());
    assert_eq!(files(&r), vec!["a", "c"]);
}

#[test]
fn chart_replays_filters_then_puts_newest_first() {
    let v = vec![
        entry("a", "X", 1),
        entry("b", "Y", 9),
        entry("c", "X", 3),
        entry("d", "X", 3),
        entry("e", "X", 2),
    ];
    let r = chart_replays(v, &"X".to_string());
    assert_eq!(files(&r), vec!["c", "d", "e", "a"]);
    assert!(chart_replays(vec![entry("a", "X", 1)], &"Z".to_string()).is_empty());
}

#[test]
fn folders_group_count_and_sort_by_name() {
    let rs = vec![
        replay(Some(2), "beta", 1),
        replay(Some(1), "alpha", 2),
        replay(None, "beta", 3),
        replay(Some(3), "gamma", 4),
        replay(Some(9), "alpha", 5),
    ];
    let f = chart_folders(&rs);
    assert_eq!(
        f,
        vec![
            ChartFolder { name: "alpha".to_string(), chart_id: Some(1), count: 2 },
            ChartFolder { name: "beta".to_string(), chart_id: Some(2), count: 2 },
            ChartFolder { name: "gamma".to_string(), chart_id: Some(3), count: 1 },
        ]
    );
    let total: usize = f.iter().map(|x| x.count).sum();
    assert_eq!(total, rs.len());
}

#[test]
fn folder_chart_id_comes_from_the_first_replay_even_when_absent() {
    let rs = vec![replay(None, "x", 1), replay(Some(5), "x", 2)];
    let f = chart_folders(&rs);
    assert_eq!(f.len(), 1);
    assert_eq!(f[0].chart_id, None);
    assert_eq!(f[0].count, 2);
}

#[test]
fn folders_follow_byte_order_of_names() {
    let rs = vec![
        replay(None, "é", 1),
        replay(None, "zeta", 1),
        replay(None, "alpha", 1),
        replay(None, "Zeta", 1),
        replay(None, "", 1),
        replay(None, "alp", 1),
    ];
    let f = chart_folders(&rs);
    let names: Vec<&str> = f.iter().map(|x| x.name.as_str()).collect();
    assert_eq!(names, vec!["", "Zeta", "alp", "alpha", "zeta", "é"]);
    let mut expected: Vec<String> = rs.iter().map(|r| r.chart_name.clone()).collect();
    expected.sort();
    assert_eq!(names, expected);
}

#[test]
fn no_replays_no_folders() {
    assert!(chart_folders(&Vec::new()).is_empty());
}

#[test]
fn name_precedes_matches_str_order() {
    let words = ["", "a", "ab", "b", "B", "回放", "回", "é", "e\u{301}"];
    for x in words {
        for y in words {
            assert_eq!(name_precedes(x, y), x < y, "{:?} < {:?}", x, y);
        }
    }
}

fn chart(id: Option<i32>, name: &str, path: &str) -> LocalChart {
    LocalChart { id, name: name.to_string(), local_path: path.to_string() }
}

#[test]
fn local_chart_found_by_id_or_name_first_match_wins() {
    let charts = vec![chart(Some(1), "One", "p1"), chart(None, "Two", "p2"), chart(Some(3), "Two", "p3")];
    assert_eq!(find_local_chart(&charts, Some(3), &"Two".to_string()), Some(1));
    assert_eq!(find_local_chart(&charts, Some(3), &"Other".to_string()), Some(2));
    assert_eq!(find_local_chart(&charts, Some(1), &"Two".to_string()), Some(0));
    assert_eq!(find_local_chart(&charts, None, &"Two".to_string()), Some(1));
    assert_eq!(find_local_chart(&charts, None, &"Three".to_string()), None);
    assert_eq!(find_local_chart(&charts, Some(4), &"Three".to_string()), None);
    assert_eq!(find_local_chart(&Vec::new(), Some(1), &"One".to_string()), None);
}

#[test]
fn remove_replay_inside_and_past_the_end() {
    let mut v = vec![entry("a", "X", 1), entry("b", "X", 2), entry("c", "X", 3)];
    let gone = remove_replay(&mut v, 1);
    assert_eq!(gone.map(|e| e.file), Some("b".to_string()));
    assert_eq!(files(&v), vec!["a", "c"]);
    assert!(remove_replay(&mut v, 2).is_none());
    assert_eq!(files(&v), vec!["a", "c"]);
}

#[test]
fn display_name_is_last_path_segment() {
    assert_eq!(display_name("charts/abc/Song Name"), "Song Name");
    assert_eq!(display_name("plain"), "plain");
    assert_eq!(display_name("trailing/"), "");
    assert_eq!(display_name(""), "");
    assert_eq!(display_name("/root"), "root");
    assert_eq!(display_name("回放/曲目"), "曲目");
    for s in ["a/b/c", "x", "/", "a//b", "é/ü"] {
        assert_eq!(display_name(s), s.split('/').last().unwrap());
    }
}

#[test]
fn time_label_falls_back_to_unknown() {
    assert_eq!(time_label_or_unknown(None), "Unknown");
    assert_eq!(time_label_or_unknown(Some("12:34 24-01-02".to_string())), "12:34 24-01-02");
}

#[test]
fn replay_time_label_formats_local_time_or_unknown() {
    let label = replay_time_label(1_700_000_000);
    assert_eq!(label.len(), 14, "{}", label);
    let b = label.as_bytes();
    assert_eq!(b[2], b':');
    assert_eq!(b[5], b' ');
    assert_eq!(b[8], b'-');
    assert_eq!(b[11], b'-');
    for i in [0, 1, 3, 4, 6, 7, 9, 10, 12, 13] {
        assert!(b[i].is_ascii_digit(), "{}", label);
    }
    assert_eq!(&label[6..8], "23");
    // 1_700_000_000 is 2023-11-14 22:13:20 UTC: every local clock is less than a day away
    let minute = &label[3..5];
    assert_eq!(minute.parse::<u32>().unwrap() % 15, 13 % 15, "{}", label);
    assert!(label.ends_with("-11-14") || label.ends_with("-11-15"), "{}", label);
    assert_eq!(replay_time_label(i64::MAX), "Unknown");
    for ts in [-8_000_000_000_000i64, 0, 8_000_000_000_000] {
        let l = replay_time_label(ts);
        assert_eq!(l.len(), 14, "{}", l);
        assert_ne!(l, "Unknown");
    }
}

#[test]
fn replay_page_lists_newest_first_and_deletes() {
    let mut page = ReplayPage::new(vec![entry("p/a", "X", 1), entry("p/b", "Y", 3), entry("p/c", "X", 2)]);
    assert_eq!(files(&page.replays), vec!["p/b", "p/c", "p/a"]);
    let gone = page.delete(0).unwrap();
    assert_eq!(gone.file, "p/b");
    assert_eq!(files(&page.replays), vec!["p/c", "p/a"]);
    assert!(page.delete(5).is_none());
    assert_eq!(page.replays.len(), 2);
    for w in page.replays.windows(2) {
        assert!(w[0].data.timestamp >= w[1].data.timestamp);
    }
}
