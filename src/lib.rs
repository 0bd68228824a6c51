//! Screenshot capture across every attached display, region selection through
//! per-display overlays, and the small pieces of state that the surrounding
//! desktop application keeps.
pub mod app_data;
pub mod capture;
pub mod config;
pub mod controller;
pub mod encoding;
pub mod error;
pub mod grabber;
pub mod gui;
pub mod launch_options;
pub mod progress;
pub mod session;
pub mod text;
pub mod uploader;
pub mod vrchat_print;
