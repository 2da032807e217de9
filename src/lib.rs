//! Window state for a windowing subsystem: identities, sizes, properties, and
//! the queue of commands that a backend drains and applies.

mod descriptor;
mod id;
mod laws;
mod window;

pub use descriptor::{
    Real32, Real64, WindowDescriptor, WindowMode, DEFAULT_HEIGHT_BITS, DEFAULT_WIDTH_BITS,
};
pub use id::{simple_text, WindowId};
pub use laws::{
    lemma_requests_keep_backend_state, lemma_requests_queue_in_order, lemma_second_drain_empty,
};
pub use window::{Window, WindowCommand, WindowModel, WindowRequest};
