//! Instanced drawing core: per-instance attribute buffers mirrored to device
//! memory, shapes and groups of them, the per-frame draw plan, the partition
//! of update work among workers, and the event-driven frame scheduler.
//!
//! Everything numeric about a vertex or an attribute (positions, rotation
//! matrices, colours) is the caller's business: the types here are generic
//! over the element they store, and decide what is written, drawn and run.

pub mod axis;
pub mod buffer;
pub mod partition;
pub mod topology;
pub mod shape;
pub mod draw;
pub mod instance_group;
pub mod shape_group;
pub mod scheduler;
pub mod event_source;
