//! Replay bookkeeping for a rhythm game: the recorded data of a play, the
//! listing and grouping of stored replays, the navigation of the replay
//! browser, the phases of replay playback and the audio output format chosen
//! when a track is decoded.

pub mod replay;
pub mod audio;
pub mod launch;
pub mod library;
pub mod names;
pub mod navigation;
pub mod playback;
pub mod scene_wrapper;
pub mod score;
