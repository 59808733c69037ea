//! A weekly-note manager's library: a markdown renderer for the terminal,
//! and the pieces of note bookkeeping that are plain computation.

pub mod cli;
pub mod days;
pub mod event;
pub mod laws;
pub mod md;
pub mod notes;
pub mod render;
pub mod style;
