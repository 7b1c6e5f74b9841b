//! Core of a desktop shell that answers a greeting command and launches a
//! bundled companion executable once at startup.

pub mod greeting;
pub mod launch;
