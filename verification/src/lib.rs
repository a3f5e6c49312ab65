//! Verified plain-value core of a desktop wallpaper library for Windows.
//!
//! The wallpaper configuration itself is operating-system state, reached
//! through two native surfaces: a legacy global system-parameter call and a
//! per-monitor COM interface. What this crate verifies is everything those
//! surfaces exchange short of the native calls themselves: wide-string
//! marshaling with its nul discipline, result-code translation, the raw
//! encodings of position, color and slideshow values, and the per-thread COM
//! initialization discipline. A thin unverified layer makes the native calls
//! and moves plain values in and out.

pub mod com;
pub mod desktop_wallpaper;
pub mod shobjidl;
pub mod user32;
pub mod wide;
