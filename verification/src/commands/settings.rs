//! User settings kept between sessions.

use vstd::prelude::*;

verus! {

/// The devices and voice the user selected.
#[derive(Debug, Clone)]
pub struct AppSettings {
    pub selected_device_id: Option<String>,
    pub selected_voice_id: Option<String>,
}

impl Default for AppSettings {
    fn default() -> (s: AppSettings)
        ensures
            s.selected_device_id is None,
            s.selected_voice_id is None,
    {
        AppSettings { selected_device_id: None, selected_voice_id: None }
    }
}

} // verus!
