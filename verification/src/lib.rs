//! The logic of a small text editor: each component keeps a model that
//! messages update, and a view state that decides what to redraw.

pub mod components;
pub mod properties;
