pub mod game_api;
pub mod platform_display;
pub mod platform_input;
pub mod platform_paths;
pub mod units;
pub mod win32;
pub mod win32_platform;
