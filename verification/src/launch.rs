//! Setting up the scene that plays a replay: which installed chart it is
//! played on and the settings it is played with.

use vstd::prelude::*;
use crate::library::{LocalChart, chart_matches, find_local_chart};
use crate::replay::ReplayData;

verus! {

/// Why a replay cannot be played.
#[derive(Clone, Debug, PartialEq, Eq)]
pub enum LaunchError {
    /// No installed chart stands for the replay's chart, which has this name.
    ChartNotFound(String),
}

/// The text shown for a launch error.
pub open spec fn launch_error_text(e: LaunchError) -> Seq<char> {
    match e {
        LaunchError::ChartNotFound(name) => "找不到对应的铺面: "@ + name@,
    }
}

impl LaunchError {
    /// The text shown to the player: for a missing chart, "找不到对应的铺面: "
    /// followed by the chart's name.
    pub fn message(&self) -> (r: String)
        ensures
            r@ == launch_error_text(*self),
    {
        match self {
            LaunchError::ChartNotFound(name) => {
                let mut text = String::from_str("找不到对应的铺面: ");
                text.append(name.as_str());
                text
            },
        }
    }
}

/// The settings a replay is played with, beyond the player's own.
#[derive(Clone, Debug, PartialEq, Eq)]
pub struct ReplaySettings {
    /// Name shown for the player.
    pub player_name: String,
    /// Resource pack to use; `None` for the built-in one.
    pub res_pack_path: Option<String>,
    /// Whether the aspect ratio is kept fixed (always, during replays).
    pub fix_aspect_ratio: bool,
}

/// The installed chart a replay is played on: the first that carries the
/// replay's chart identifier or its chart's name.
pub fn locate_replay_chart(charts: &Vec<LocalChart>, replay: &ReplayData) -> (r: Result<usize, LaunchError>)
    ensures
        match r {
            Ok(i) => i < charts@.len() && chart_matches(charts@[i as int], replay.chart_id, replay.chart_name@)
                && forall|j: int| 0 <= j < i ==> !chart_matches(#[trigger] charts@[j], replay.chart_id, replay.chart_name@),
            Err(e) => e == LaunchError::ChartNotFound(replay.chart_name)
                && forall|j: int| 0 <= j < charts@.len() ==> !chart_matches(#[trigger] charts@[j], replay.chart_id, replay.chart_name@),
        },
{
    match find_local_chart(charts, replay.chart_id, &replay.chart_name) {
        Some(i) => Ok(i),
        None => Err(LaunchError::ChartNotFound(replay.chart_name.clone())),
    }
}

/// The name shown for the player: the signed-in user's, or `Guest`.
pub fn player_name(signed_in: Option<String>) -> (r: String)
    ensures
        match signed_in {
            Some(name) => r == name,
            None => r@ == "Guest"@,
        },
{
    match signed_in {
        Some(name) => name,
        None => String::from_str("Guest"),
    }
}

/// The resource pack chosen by its number: `0` is the built-in pack; pack
/// `n` is the `n`-th of `respacks`, found under the directory `respacks_dir`.
pub fn respack_path(respack_id: usize, respacks_dir: &str, respacks: &Vec<String>) -> (r: Option<String>)
    requires
        respack_id <= respacks@.len(),
    ensures
        respack_id == 0 ==> r is None,
        respack_id > 0 ==> r is Some && r.unwrap()@ == respacks_dir@ + "/"@
            + respacks@[respack_id - 1]@,
{
    if respack_id == 0 {
        None
    } else {
        let mut path = String::from_str(respacks_dir);
        path.append("/");
        path.append(respacks[respack_id - 1].as_str());
        Some(path)
    }
}

/// The settings of a replay: the player's name, the chosen resource pack and
/// a fixed aspect ratio.
pub fn replay_settings(
    signed_in: Option<String>,
    respack_id: usize,
    respacks_dir: &str,
    respacks: &Vec<String>,
) -> (r: ReplaySettings)
    requires
        respack_id <= respacks@.len(),
    ensures
        match signed_in {
            Some(name) => r.player_name == name,
            None => r.player_name@ == "Guest"@,
        },
        respack_id == 0 ==> r.res_pack_path is None,
        respack_id > 0 ==> r.res_pack_path is Some && r.res_pack_path.unwrap()@ == respacks_dir@
            + "/"@ + respacks@[respack_id - 1]@,
        r.fix_aspect_ratio,
{
    ReplaySettings {
        player_name: player_name(signed_in),
        res_pack_path: respack_path(respack_id, respacks_dir, respacks),
        fix_aspect_ratio: true,
    }
}

} // verus!
