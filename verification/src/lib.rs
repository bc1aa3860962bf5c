//! Resumable download engine: transfer state machine, transfer registry,
//! single-instance coordination and the index of completed files.

pub mod cache;
pub mod coordinator;
pub mod focus;
pub mod messages;
pub mod model;
pub mod names;
pub mod registry;
pub mod runs;
pub mod select;
pub mod task;
