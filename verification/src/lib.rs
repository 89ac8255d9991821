//! The screen engine of a terminal front-end for a version-control
//! repository: a collapsible outline of items, the cursor that walks it,
//! the scroll offset that follows the cursor, and the rows to paint.

pub mod items;
pub mod menu;
pub mod ops;
pub mod screen;
pub mod text;
