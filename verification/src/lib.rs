//! Verified core of the desktop widgets' audio and sway providers.
pub mod audio_output;
pub mod providers;
pub mod pulse_client;
pub mod pulse_error;
pub mod pulse_state;
pub mod pulse_sync;
pub mod sway_client;
pub mod sway_output;
pub mod text;
pub mod volume_levels;
pub mod window_layout;
