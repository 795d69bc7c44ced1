//! User settings (persisted as JSON by the application).
use vstd::prelude::*;

verus! {

/// User settings.
#[derive(Clone, Debug)]
pub struct Settings {
    /// Directory to scan recursively for .rep files.
    pub replay_folder: Option<String>,
    /// Player name for win/loss detection (matched against replay player names).
    pub player_name: Option<String>,
    /// Advanced mode: shows player ID config and automatic folder scanning.
    pub advanced_mode: bool,
}

impl Default for Settings {
    fn default() -> (r: Settings)
        ensures
            r.replay_folder is None,
            r.player_name is None,
            !r.advanced_mode,
    {
        Settings { replay_folder: None, player_name: None, advanced_mode: false }
    }
}

} // verus!
