//! Window capture and helper-process supervision for a desktop messaging assistant.
pub mod text;
pub mod dict;
pub mod error;
pub mod platform;
pub mod window;
pub mod capture;
pub mod plugin;
pub mod update;
