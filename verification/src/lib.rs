//! An interactive inspector for the changes of a working tree: the status
//! snapshot, the staging operations, the commit message editor and the state
//! behind the terminal screen.

pub mod app;
pub mod cmd;
pub mod diff_view;
pub mod editor;
pub mod emoji;
pub mod error;
pub mod git;
pub mod helper;
pub mod pattern;
pub mod prompt;
pub mod render;
pub mod report;
pub mod repository;
pub mod staging;
pub mod status;
pub mod style;
pub mod text;
pub mod updater;
pub mod utf8;
pub mod version;
pub mod words;
