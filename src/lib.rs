//! Axis and grid ("mesh") configuration for two-dimensional charts, and the
//! two-pass protocol that draws it.
pub mod style;
pub mod mesh;
