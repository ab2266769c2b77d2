//! Settings records of capture sources.

pub mod mac_display_capture;
pub mod mac_screen_capture;
pub mod mac_window_capture;
pub mod win_game_capture;
