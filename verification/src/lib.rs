//! Core logic of a two-paddle ball game: ball motion with wall reflection,
//! circle-versus-rectangle collision resolution, and paddle movement (manual
//! and tracking), all over integer coordinates on a fixed rectangular field.
//!
//! Windowing, input polling and drawing are the concern of the surrounding
//! program; the library works on plain values only.

pub mod ball;
pub mod game;
pub mod geometry;
pub mod paddle;
