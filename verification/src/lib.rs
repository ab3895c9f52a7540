//! A library for a terminal slideshow of multi-color striped flags.
//!
//! The library holds the verified core: the flag data model and its
//! validation, the equal-width stripe layout, the contrast color used for
//! text overlays, and the per-frame state machine that advances through the
//! flag list on a timer or on keyboard commands. Reading the configuration
//! file and drawing to the terminal are left to the surrounding program.

pub mod color;
pub mod config;
pub mod layout;
pub mod state;
