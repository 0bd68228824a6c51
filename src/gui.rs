//! The standalone uploader: a small window that sends one image to VRChat
//! Prints, or edits its own settings.
pub mod config;
pub mod logic;
pub mod ui;
