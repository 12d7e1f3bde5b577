//! The Source Control panel: its drawers, its list of rows, the commit message
//! boxes, the context menus, and what each key and click does.

pub mod app;
pub mod boxes;
pub mod clicks;
pub mod draw_laws;
pub mod drawer;
pub mod frame;
pub mod header;
pub mod keys;
pub mod laws;
pub mod menu;
pub mod outcomes;
pub mod overlays;
pub mod message;
pub mod panel;
pub mod parts;
pub mod refresh;
pub mod render;
pub mod restore;
pub mod row_laws;
pub mod rows;
pub mod snapshot;
pub mod view_laws;
