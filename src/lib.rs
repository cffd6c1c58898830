//! Status-line segment data: the theme presets, the segment contract, and the
//! quota segment with its cached endpoint detection.

pub mod config;
pub mod credential;
pub mod quota;
pub mod segment;
pub mod themes;
