//! The phases of replay playback: fade in, wait for the music, play the
//! chart, fade out, leave.
//!
//! Times are floating point in the game; the library takes, for the current
//! phase, whether the moment that ends it has been reached (see
//! [`phase_deadline`]) and decides everything else. Starting the music can
//! fail: the frame that reaches the music's deadline asks for the music to be
//! rewound and played, and playback moves on only once the caller reports,
//! through [`ReplayScene::music_started`], that it did start. A failed start
//! ends the frame with the error and leaves playback waiting for the music.

use vstd::prelude::*;
use crate::scene_wrapper::SceneRequest;

verus! {

/// Where a replay's playback stands.
#[derive(Clone, Copy, Debug, PartialEq, Eq)]
pub enum ReplayPhase {
    /// The chart fades in.
    Starting,
    /// Waiting to start the music.
    BeforeMusic,
    /// The chart plays along the music.
    Playing,
    /// The chart fades out.
    Ending,
}

/// The moment that ends a phase.
#[derive(Clone, Copy, Debug, PartialEq, Eq)]
pub enum Deadline {
    /// Time since entering reaches the fade-in time.
    FadeInDone,
    /// Time since entering is not negative.
    MusicStart,
    /// Time since entering is past the track's length plus the wait after it.
    TrackOver,
    /// Time since the track was over reaches the fade-out time.
    FadeOutDone,
}

/// Which clock the chart follows in a frame.
#[derive(Clone, Copy, Debug, PartialEq, Eq)]
pub enum ChartClock {
    /// The chart stays at its start.
    AtStart,
    /// The chart follows the time since entering.
    Live,
    /// The chart stays at the end of the track.
    AtEnd,
}

/// How the chart's opacity is set in a frame.
#[derive(Clone, Copy, Debug, PartialEq, Eq)]
pub enum Fade {
    /// Opacity grows with time, up to full.
    In,
    /// Opacity is left as it is.
    Keep,
    /// Opacity falls with time, down to none.
    Out,
}

/// What one frame of playback does.
#[derive(Clone, Copy, Debug, PartialEq, Eq)]
pub struct FrameStep {
    /// Rewind the music to its start.
    pub rewind_music: bool,
    /// Start playing the music.
    pub play_music: bool,
    /// The clock the chart follows in this frame.
    pub clock: ChartClock,
    /// How opacity is set in this frame.
    pub fade: Fade,
}

/// The state of a replay's playback.
#[derive(Clone, Copy, Debug, PartialEq, Eq)]
pub struct ReplayScene {
    /// The current phase.
    pub phase: ReplayPhase,
    /// Set once the fade-out is over: the scene then asks to be closed.
    pub should_exit: bool,
}

/// Rank of a phase in the order in which playback goes through them.
pub open spec fn phase_rank(p: ReplayPhase) -> int {
    match p {
        ReplayPhase::Starting => 0,
        ReplayPhase::BeforeMusic => 1,
        ReplayPhase::Playing => 2,
        ReplayPhase::Ending => 3,
    }
}

/// A state that playback can be in: it is asked to close only once it is fading out.
pub open spec fn progress_wf(s: ReplayScene) -> bool {
    s.should_exit ==> s.phase == ReplayPhase::Ending
}

/// The phase after a frame: the next one when the current phase's deadline
/// has been reached (fading out is the last). The wait for the music is left
/// only once the music has started ([`after_music_start`]).
pub open spec fn phase_after(p: ReplayPhase, reached: bool) -> ReplayPhase {
    if reached {
        match p {
            ReplayPhase::Starting => ReplayPhase::BeforeMusic,
            ReplayPhase::BeforeMusic => ReplayPhase::BeforeMusic,
            ReplayPhase::Playing => ReplayPhase::Ending,
            ReplayPhase::Ending => ReplayPhase::Ending,
        }
    } else {
        p
    }
}

/// The state after a frame: the phase moves on as [`phase_after`] says, and
/// playback asks to close once the fade-out deadline is reached.
pub open spec fn progress_after(s: ReplayScene, reached: bool) -> ReplayScene {
    ReplayScene {
        phase: phase_after(s.phase, reached),
        should_exit: s.should_exit || (s.phase == ReplayPhase::Ending && reached),
    }
}

/// The state once the music has started: playback leaves the wait for it
/// and plays; in any other phase nothing changes.
pub open spec fn after_music_start(s: ReplayScene) -> ReplayScene {
    if s.phase == ReplayPhase::BeforeMusic {
        ReplayScene { phase: ReplayPhase::Playing, ..s }
    } else {
        s
    }
}

/// The moment that ends the given phase.
pub fn phase_deadline(phase: ReplayPhase) -> (r: Deadline)
    ensures
        r == match phase {
            ReplayPhase::Starting => Deadline::FadeInDone,
            ReplayPhase::BeforeMusic => Deadline::MusicStart,
            ReplayPhase::Playing => Deadline::TrackOver,
            ReplayPhase::Ending => Deadline::FadeOutDone,
        },
{
    match phase {
        ReplayPhase::Starting => Deadline::FadeInDone,
        ReplayPhase::BeforeMusic => Deadline::MusicStart,
        ReplayPhase::Playing => Deadline::TrackOver,
        ReplayPhase::Ending => Deadline::FadeOutDone,
    }
}

impl ReplayScene {
    /// Playback of a new replay: fading in, not done.
    pub fn new() -> (r: Self)
        ensures
            r.phase == ReplayPhase::Starting,
            !r.should_exit,
            progress_wf(r),
    {
        ReplayScene { phase: ReplayPhase::Starting, should_exit: false }
    }

    /// One frame of playback. `reached` tells whether the deadline of the
    /// current phase ([`phase_deadline`]) has been reached; `paused` whether
    /// the game clock is paused. When the result asks to rewind the music,
    /// the caller rewinds it (and plays it, when asked), then reports the
    /// start with [`ReplayScene::music_started`] before going on with the
    /// frame; if either fails, the frame ends there with the error.
    pub fn update(&mut self, reached: bool, paused: bool) -> (r: FrameStep)
        ensures
            *final(self) == progress_after(*old(self), reached),
            r.rewind_music == (old(self).phase == ReplayPhase::BeforeMusic && reached),
            r.play_music == (old(self).phase == ReplayPhase::BeforeMusic && reached && !paused),
            r.clock == match old(self).phase {
                ReplayPhase::Starting => ChartClock::AtStart,
                ReplayPhase::BeforeMusic => ChartClock::AtStart,
                ReplayPhase::Playing => ChartClock::Live,
                ReplayPhase::Ending => ChartClock::AtEnd,
            },
            r.fade == match old(self).phase {
                ReplayPhase::Starting => Fade::In,
                ReplayPhase::Ending => Fade::Out,
                _ => Fade::Keep,
            },
    {
        match self.phase {
            ReplayPhase::Starting => {
                if reached {
                    self.phase = ReplayPhase::BeforeMusic;
                }
                FrameStep {
                    rewind_music: false,
                    play_music: false,
                    clock: ChartClock::AtStart,
                    fade: Fade::In,
                }
            },
            ReplayPhase::BeforeMusic => {
                FrameStep {
                    rewind_music: reached,
                    play_music: reached && !paused,
                    clock: ChartClock::AtStart,
                    fade: Fade::Keep,
                }
            },
            ReplayPhase::Playing => {
                if reached {
                    self.phase = ReplayPhase::Ending;
                }
                FrameStep {
                    rewind_music: false,
                    play_music: false,
                    clock: ChartClock::Live,
                    fade: Fade::Keep,
                }
            },
            ReplayPhase::Ending => {
                if reached {
                    self.should_exit = true;
                }
                FrameStep {
                    rewind_music: false,
                    play_music: false,
                    clock: ChartClock::AtEnd,
                    fade: Fade::Out,
                }
            },
        }
    }

    /// The music was rewound (and played, unless paused) as the frame asked:
    /// playback leaves the wait for the music and plays the chart.
    pub fn music_started(&mut self)
        ensures
            *final(self) == after_music_start(*old(self)),
    {
        match self.phase {
            ReplayPhase::BeforeMusic => {
                self.phase = ReplayPhase::Playing;
            },
            _ => {},
        }
    }

    /// What the replay scene asks for: to be closed once playback is over.
    pub fn next_scene(&self) -> (r: SceneRequest)
        ensures
            r == (if self.should_exit {
                SceneRequest::Pop
            } else {
                SceneRequest::Stay
            }),
    {
        if self.should_exit {
            SceneRequest::Pop
        } else {
            SceneRequest::Stay
        }
    }
}

/// A frame, or the start of the music, never moves playback backwards nor
/// skips a phase, keeps a state that playback can be in, and once playback
/// asks to close it keeps asking.
pub proof fn lemma_update_monotone(before: ReplayScene, reached: bool)
    requires
        progress_wf(before),
    ensures
        ({
            let after = progress_after(before, reached);
            &&& phase_rank(before.phase) <= phase_rank(after.phase) <= phase_rank(before.phase) + 1
            &&& progress_wf(after)
            &&& before.should_exit ==> after.should_exit
        }),
        ({
            let after = after_music_start(before);
            &&& phase_rank(before.phase) <= phase_rank(after.phase) <= phase_rank(before.phase) + 1
            &&& progress_wf(after)
            &&& before.should_exit == after.should_exit
        }),
{
}

/// Frames never leave the wait for the music by themselves: when starting
/// the music fails, playback is still waiting for it, with nothing else
/// changed. Once the music has started playback plays, and it never comes
/// back to the wait: over any run the music is started at most once.
pub proof fn lemma_music_starts_once(before: ReplayScene, reached: bool)
    ensures
        before.phase == ReplayPhase::BeforeMusic ==> progress_after(before, reached) == before,
        before.phase == ReplayPhase::BeforeMusic ==> after_music_start(before).phase
            == ReplayPhase::Playing,
        phase_rank(before.phase) >= 2 ==> phase_rank(progress_after(before, reached).phase) >= 2,
        phase_rank(before.phase) >= 2 ==> after_music_start(before) == before,
{
}

/// From the start, the frames that reach their deadlines, with the music
/// started when asked, bring playback to its end, and the scene then asks to
/// be closed.
pub proof fn lemma_deadlines_end_playback(start: ReplayScene)
    requires
        start.phase == ReplayPhase::Starting,
        !start.should_exit,
    ensures
        ({
            let s1 = progress_after(start, true);
            let s2 = after_music_start(progress_after(s1, true));
            let s3 = progress_after(s2, true);
            let s4 = progress_after(s3, true);
            &&& s2.phase == ReplayPhase::Playing
            &&& !s3.should_exit
            &&& s4.should_exit
            &&& s4.phase == ReplayPhase::Ending
        }),
{
}

} // verus!
