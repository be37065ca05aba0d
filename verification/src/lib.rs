//! Terminal webcam renderer: converts camera frames to character art and builds
//! the capture configuration that the recorder hands to its media tools.
pub mod ascii;
pub mod camera;
pub mod text;
pub mod devices;
pub mod capture;
pub mod effects;
pub mod terminal;
pub mod cli;
pub mod permissions;
pub mod pty;
pub mod fal;
pub mod input;
pub mod hotkeys;
pub mod pipeline;
pub mod pipeline_config;
pub mod order;
pub mod event_loop;
