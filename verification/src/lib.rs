pub mod clock;
pub mod git_reader;
pub mod hook_event;
pub mod hook_state;
pub mod native_pulse;
pub mod pet_core;
pub mod pet_loop;
pub mod pet_overlay;
pub mod pet_settings;
pub mod process_monitor;
pub mod quotes;
pub mod state;
pub mod text;
pub mod window_prefs;
