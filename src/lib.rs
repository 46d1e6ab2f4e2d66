//! A browser engine for a ranked feed of stories: the item model, the
//! ordered assembly of batch fetches, the two-cursor navigation state and the
//! text rendering of items.

pub mod item;
pub mod batch;
pub mod navigation;
pub mod render;
