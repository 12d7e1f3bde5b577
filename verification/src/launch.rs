//! Where a sidebar opens and what a toggle does: decisions over what the
//! multiplexer reports of its panes and layouts.

pub mod decision;
pub mod events;
pub mod follow;
pub mod laws;
pub mod layout;
pub mod panes;
pub mod queries;
pub mod replies;
pub mod resize;
