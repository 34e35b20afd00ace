//! Session controller of a single-window camera application: live preview,
//! video recording and a countdown before each still snapshot, driven over an
//! external capture engine that the surrounding shell owns and operates.
pub mod action;
pub mod app;
pub mod countdown;
pub mod pixels;
pub mod registry;
pub mod state;
