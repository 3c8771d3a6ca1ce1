//! Watches a running game process, checks that it runs a known build, finds
//! field offsets by scanning when the build is unknown, and keeps one counter
//! in its memory at zero.

pub mod mem_lib;
pub mod scan;
pub mod scr;
