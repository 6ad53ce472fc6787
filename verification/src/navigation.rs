//! The replay browser: at its root one folder per chart, inside a folder the
//! replays of that chart. This module holds its decisions; drawing, the
//! chart list widget and file access stay with the caller.

use vstd::prelude::*;

verus! {

/// What a touch that the chart list has seen leads to.
#[derive(Clone, Debug, PartialEq, Eq)]
pub enum TouchReply {
    /// A folder was opened: reload the list; the touch is handled.
    ReloadFolder,
    /// A replay was picked inside a folder: cancel the list's transition,
    /// take the file name it recorded and open that replay; the touch is handled.
    OpenClickedReplay,
    /// Nothing for the browser to do; the touch is handled as the list said.
    Pass(bool),
}

impl TouchReply {
    /// Whether the touch counts as handled.
    pub fn handled(&self) -> (r: bool)
        ensures
            r == match self {
                TouchReply::Pass(b) => *b,
                _ => true,
            },
    {
        match self {
            TouchReply::Pass(b) => *b,
            _ => true,
        }
    }
}

/// How the loading of a replay scene ended.
#[derive(Clone, Copy, Debug, PartialEq, Eq)]
pub enum SceneLoad {
    /// The scene was built and asks to be shown on top.
    Overlay,
    /// The scene was built but asks for something else.
    OtherRequest,
    /// Building the scene failed.
    Failed,
}

/// What the browser does once a replay scene has been loaded.
#[derive(Clone, Copy, Debug, PartialEq, Eq)]
pub enum LoadReaction {
    /// Show the scene on top of the browser, in a page of its own.
    ShowOverlay,
    /// Drop the scene.
    Ignore,
    /// Tell the player that loading failed.
    ReportFailure,
}

/// What the browser lists.
#[derive(Clone, Debug, PartialEq, Eq)]
pub enum Listing {
    /// One folder per chart that has replays.
    ChartFolders,
    /// The replays of the chart with this name.
    ChartReplays(String),
}

/// The browser's own state.
#[derive(Clone, Debug, PartialEq, Eq)]
pub struct ReplayListPage {
    /// `None` at the root; the name of the chart whose replays are listed otherwise.
    pub current_folder: Option<String>,
    /// A page that shows a loaded replay is waiting to be opened.
    pub overlay_pending: bool,
}

/// The title of the page in a state.
pub open spec fn page_title(s: ReplayListPage) -> Seq<char> {
    if s.current_folder is Some {
        "回放记录"@
    } else {
        "回放列表"@
    }
}

/// The state after a touch of the back button (`hit`: the button took it).
pub open spec fn state_after_back(s: ReplayListPage, hit: bool) -> ReplayListPage {
    if s.current_folder is Some && hit {
        ReplayListPage { current_folder: None, ..s }
    } else {
        s
    }
}

/// The state after the chart list has seen a touch and reported `clicked_folder`.
pub open spec fn state_after_view_touch(s: ReplayListPage, clicked_folder: Option<String>) -> ReplayListPage {
    match clicked_folder {
        Some(name) => ReplayListPage { current_folder: Some(name), ..s },
        None => s,
    }
}

impl ReplayListPage {
    /// The browser as it opens: at the root, nothing pending.
    pub fn new() -> (r: Self)
        ensures
            r.current_folder is None,
            !r.overlay_pending,
    {
        ReplayListPage { current_folder: None, overlay_pending: false }
    }

    /// The title of the page: the replay records of a chart inside a folder,
    /// the replay list at the root.
    pub fn label(&self) -> (r: String)
        ensures
            r@ == page_title(*self),
    {
        if self.current_folder.is_some() {
            String::from_str("回放记录")
        } else {
            String::from_str("回放列表")
        }
    }

    /// What is to be listed: the replays of the open folder's chart, or the
    /// chart folders at the root.
    pub fn listing(&self) -> (r: Listing)
        ensures
            r == match self.current_folder {
                Some(name) => Listing::ChartReplays(name),
                None => Listing::ChartFolders,
            },
    {
        match &self.current_folder {
            Some(name) => Listing::ChartReplays(name.clone()),
            None => Listing::ChartFolders,
        }
    }

    /// Whether the back button is shown (and can be touched): inside a folder only.
    pub fn back_button_shown(&self) -> (r: bool)
        ensures
            r == self.current_folder is Some,
    {
        self.current_folder.is_some()
    }

    /// A touch of the back button (`hit` tells whether the button took the
    /// touch). Inside a folder it returns to the root and the list is to be
    /// reloaded; the result says whether that happened.
    pub fn press_back(&mut self, hit: bool) -> (reload: bool)
        ensures
            reload == (old(self).current_folder is Some && hit),
            *final(self) == state_after_back(*old(self), hit),
    {
        if self.current_folder.is_some() && hit {
            self.current_folder = None;
            true
        } else {
            false
        }
    }

    /// After the chart list has seen a touch: `view_handled` is its answer,
    /// `clicked_folder` the folder it reports as clicked, `transiting`
    /// whether it started to open an item. A clicked folder is entered;
    /// inside a folder, an item being opened is a replay to play.
    pub fn after_view_touch(
        &mut self,
        view_handled: bool,
        clicked_folder: Option<String>,
        transiting: bool,
    ) -> (r: TouchReply)
        ensures
            *final(self) == state_after_view_touch(*old(self), clicked_folder),
            r == (if clicked_folder is Some {
                TouchReply::ReloadFolder
            } else if old(self).current_folder is Some && transiting {
                TouchReply::OpenClickedReplay
            } else {
                TouchReply::Pass(view_handled)
            }),
    {
        match clicked_folder {
            Some(name) => {
                self.current_folder = Some(name);
                TouchReply::ReloadFolder
            },
            None => {
                if self.current_folder.is_some() && transiting {
                    TouchReply::OpenClickedReplay
                } else {
                    TouchReply::Pass(view_handled)
                }
            },
        }
    }

    /// The loading of a replay scene has ended.
    pub fn scene_loaded(&mut self, outcome: SceneLoad) -> (r: LoadReaction)
        ensures
            r == match outcome {
                SceneLoad::Overlay => LoadReaction::ShowOverlay,
                SceneLoad::OtherRequest => LoadReaction::Ignore,
                SceneLoad::Failed => LoadReaction::ReportFailure,
            },
            final(self).overlay_pending == (old(self).overlay_pending || outcome
                == SceneLoad::Overlay),
            final(self).current_folder == old(self).current_folder,
    {
        match outcome {
            SceneLoad::Overlay => {
                self.overlay_pending = true;
                LoadReaction::ShowOverlay
            },
            SceneLoad::OtherRequest => LoadReaction::Ignore,
            SceneLoad::Failed => LoadReaction::ReportFailure,
        }
    }

    /// Hands over the pending page, once: the result says whether one was pending.
    pub fn take_next_page(&mut self) -> (r: bool)
        ensures
            r == old(self).overlay_pending,
            !final(self).overlay_pending,
            final(self).current_folder == old(self).current_folder,
    {
        let pending = self.overlay_pending;
        self.overlay_pending = false;
        pending
    }
}

/// Opening a folder and then pressing back brings the browser back to the
/// root: the title goes from the records of a chart to the list, and the
/// pending page is left alone.
pub proof fn lemma_enter_then_back(s: ReplayListPage, name: String)
    ensures
        page_title(state_after_view_touch(s, Some(name))) == "回放记录"@,
        state_after_view_touch(s, Some(name)).current_folder == Some(name),
        state_after_back(state_after_view_touch(s, Some(name)), true).current_folder is None,
        page_title(state_after_back(state_after_view_touch(s, Some(name)), true)) == "回放列表"@,
        state_after_back(state_after_view_touch(s, Some(name)), true).overlay_pending
            == s.overlay_pending,
{
}

/// At the root the back button does nothing, whatever the touch.
pub proof fn lemma_back_at_root_is_noop(s: ReplayListPage, hit: bool)
    requires
        s.current_folder is None,
    ensures
        state_after_back(s, hit) == s,
{
}

} // verus!
