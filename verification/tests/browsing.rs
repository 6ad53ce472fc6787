use phira_replay::navigation::{LoadReaction, Listing, ReplayListPage, SceneLoad, TouchReply};
use phira_replay::playback::{phase_deadline, ChartClock, Deadline, Fade, ReplayPhase, ReplayScene};
use phira_replay::scene_wrapper::{host_next_page, HostStep, PageRequest, SceneRequest, SceneWrapperPage};

#[test]
fn browser_opens_at_root_with_list_title() {
    let s = ReplayListPage::new();
    assert_eq!(s.current_folder, None);
    assert_eq!(s.label(), "回放列表");
    assert!(!s.back_button_shown());
    assert_eq!(s.listing(), Listing::ChartFolders);
}

#[test]
fn clicking_a_folder_enters_it_and_back_returns() {
    let mut s = ReplayListPage::new();
    let r = s.after_view_touch(false, Some("Song".to_string()), false);
    assert_eq!(r, TouchReply::ReloadFolder);
    assert!(r.handled());
    assert_eq!(s.current_folder.as_deref(), Some("Song"));
    assert_eq!(s.label(), "回放记录");
    assert!(s.back_button_shown());
    assert_eq!(s.listing(), Listing::ChartReplays("Song".to_string()));
    assert!(!s.press_back(false));
    assert_eq!(s.current_folder.as_deref(), Some("Song"));
    assert!(s.press_back(true));
    assert_eq!(s.current_folder, None);
    assert_eq!(s.label(), "回放列表");
}

#[test]
fn back_at_root_does_nothing() {
    let mut s = ReplayListPage::new();
    assert!(!s.press_back(true));
    assert_eq!(s, ReplayListPage::new());
}

#[test]
fn transit_inside_folder_opens_replay_but_not_at_root() {
    let mut root = ReplayListPage::new();
    assert_eq!(root.after_view_touch(true, None, true), TouchReply::Pass(true));
    assert_eq!(root.after_view_touch(false, None, false), TouchReply::Pass(false));
    let mut inside = ReplayListPage { current_folder: Some("S".to_string()), overlay_pending: false };
    let r = inside.after_view_touch(false, None, true);
    assert_eq!(r, TouchReply::OpenClickedReplay);
    assert!(r.handled());
    assert_eq!(inside.after_view_touch(true, None, false), TouchReply::Pass(true));
    assert_eq!(inside.current_folder.as_deref(), Some("S"));
    // a clicked folder wins over a transition
    assert_eq!(inside.after_view_touch(false, Some("T".to_string()), true), TouchReply::ReloadFolder);
    assert_eq!(inside.current_folder.as_deref(), Some("T"));
}

#[test]
fn loaded_scene_reactions_and_pending_page_taken_once() {
    let mut s = ReplayListPage::new();
    assert_eq!(s.scene_loaded(SceneLoad::Failed), LoadReaction::ReportFailure);
    assert_eq!(s.scene_loaded(SceneLoad::OtherRequest), LoadReaction::Ignore);
    assert!(!s.take_next_page());
    assert_eq!(s.scene_loaded(SceneLoad::Overlay), LoadReaction::ShowOverlay);
    assert!(s.overlay_pending);
    assert!(s.take_next_page());
    assert!(!s.take_next_page());
}

#[test]
fn hosted_scene_requests() {
    assert_eq!(host_next_page(SceneRequest::Pop), HostStep { page: PageRequest::Pop, swap_scene: false });
    assert_eq!(host_next_page(SceneRequest::PopWithResult), HostStep { page: PageRequest::Pop, swap_scene: false });
    assert_eq!(host_next_page(SceneRequest::Replace), HostStep { page: PageRequest::Stay, swap_scene: true });
    for r in [SceneRequest::Stay, SceneRequest::Overlay, SceneRequest::Other] {
        assert_eq!(host_next_page(r), HostStep { page: PageRequest::Stay, swap_scene: false });
    }
}

#[test]
fn playback_runs_through_its_phases() {
    let mut p = ReplayScene::new();
    assert_eq!(phase_deadline(p.phase), Deadline::FadeInDone);
    let s = p.update(false, false);
    assert_eq!((s.clock, s.fade, s.rewind_music, s.play_music), (ChartClock::AtStart, Fade::In, false, false));
    assert_eq!(p.phase, ReplayPhase::Starting);
    p.update(true, false);
    assert_eq!(p.phase, ReplayPhase::BeforeMusic);
    assert_eq!(phase_deadline(p.phase), Deadline::MusicStart);
    let s = p.update(true, false);
    assert!(s.rewind_music && s.play_music);
    assert_eq!(s.clock, ChartClock::AtStart);
    assert_eq!(p.phase, ReplayPhase::BeforeMusic);
    p.music_started();
    assert_eq!(p.phase, ReplayPhase::Playing);
    let s = p.update(false, false);
    assert_eq!((s.clock, s.fade, s.rewind_music), (ChartClock::Live, Fade::Keep, false));
    assert_eq!(phase_deadline(p.phase), Deadline::TrackOver);
    p.update(true, false);
    assert_eq!(p.phase, ReplayPhase::Ending);
    assert_eq!(p.next_scene(), SceneRequest::Stay);
    let s = p.update(false, false);
    assert_eq!((s.clock, s.fade), (ChartClock::AtEnd, Fade::Out));
    assert!(!p.should_exit);
    p.update(true, false);
    assert!(p.should_exit);
    assert_eq!(p.next_scene(), SceneRequest::Pop);
    assert_eq!(phase_deadline(p.phase), Deadline::FadeOutDone);
    p.update(false, false);
    assert!(p.should_exit);
    assert_eq!(p.phase, ReplayPhase::Ending);
}

#[test]
fn music_is_rewound_but_not_played_while_paused() {
    let mut p = ReplayScene { phase: ReplayPhase::BeforeMusic, should_exit: false };
    let s = p.update(true, true);
    assert!(s.rewind_music);
    assert!(!s.play_music);
    assert_eq!(p.phase, ReplayPhase::BeforeMusic);
    p.music_started();
    assert_eq!(p.phase, ReplayPhase::Playing);
    let s = p.update(true, false);
    assert!(!s.rewind_music && !s.play_music);
    p.music_started();
    assert_eq!(p.phase, ReplayPhase::Ending);
}

#[test]
fn failed_music_start_keeps_waiting() {
    let mut p = ReplayScene { phase: ReplayPhase::BeforeMusic, should_exit: false };
    for _ in 0..3 {
        let s = p.update(true, false);
        assert!(s.rewind_music && s.play_music);
        assert_eq!(p, ReplayScene { phase: ReplayPhase::BeforeMusic, should_exit: false });
    }
}

#[test]
fn scene_wrapper_page_hides_title_and_music() {
    let page = SceneWrapperPage::new("回放".to_string());
    assert_eq!(page.label, "回放");
    assert_eq!(page.title(), "");
    assert!(!page.can_play_bgm());
    assert_eq!(page.next_page(SceneRequest::Pop).page, PageRequest::Pop);
    assert!(page.next_page(SceneRequest::Replace).swap_scene);
    assert_eq!(page.next_page(SceneRequest::Stay), HostStep { page: PageRequest::Stay, swap_scene: false });
}
