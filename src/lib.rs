//! A small celestial crew economy: planets orbit a star and gather waiting
//! crew, and a single ship flies between them to pick that crew up.
//!
//! Everything is held in integer units so that the rules can be proved:
//! lengths are in thousandths of a pixel, times in microseconds and angles
//! in microradians. Trigonometry stays outside the library: the caller
//! projects the phases the library computes and hands the points back.
pub mod geometry;
pub mod text;
pub mod entity;
pub mod orbit;
pub mod crew;
pub mod navigation;
pub mod label;
pub mod world;
pub mod laws;
