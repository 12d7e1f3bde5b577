//! The logic of a terminal sidebar: a file explorer with search, and a
//! Source Control panel, docked beside the working panes of a multiplexer.

pub mod actions;
pub mod chrome;
pub mod columns;
pub mod explorer_app;
pub mod geometry;
pub mod git;
pub mod input;
pub mod json;
pub mod launch;
pub mod laws;
pub mod menu_nav;
pub mod popup;
pub mod ranking;
pub mod records;
pub mod scm_app;
pub mod sections;
pub mod settings;
pub mod spans;
pub mod text;
pub mod text_laws;
pub mod utf8;
pub mod view;
