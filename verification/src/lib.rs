//! A modal task-list controller: an in-memory list of titled tasks with a
//! completion flag, a clamped selection cursor, and a two-mode (normal /
//! editing) line-editing state machine for composing new task titles.

pub mod controller;
pub mod laws;
pub mod text;
