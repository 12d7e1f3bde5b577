//! The Explorer: the file tree, quick open and the search through file
//! contents.

pub mod app;
pub mod clicks;
pub mod content;
pub mod deco;
pub mod finding;
pub mod frame;
pub mod frame_laws;
pub mod hits;
pub mod key_laws;
pub mod keys;
pub mod laws;
pub mod menus;
pub mod moves;
pub mod outcomes;
pub mod panel;
pub mod panel_view;
pub mod paths;
pub mod patterns;
pub mod quick;
pub mod quick_open;
pub mod search;
pub mod start;
pub mod tree;
pub mod view_laws;
