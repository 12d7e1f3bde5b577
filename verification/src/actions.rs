//! The Explorer's file menu, and the commands and texts that its entries hand to
//! the outside.

pub mod clipboard;
pub mod commands;
pub mod editor;
pub mod laws;
pub mod menu;
