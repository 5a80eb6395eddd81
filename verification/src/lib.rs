//! A string-to-string map for callers that can hold nothing but a handle.
//!
//! The caller creates a map and gets a [`Handle`]; it sets entries by passing
//! the handle and two borrowed C strings; it destroys the map by passing the
//! handle one last time. The maps themselves stay in a [`Registry`], which
//! knows of every handle whether it is live, destroyed or was never issued, so
//! that a stale handle is answered with an error.
pub mod binding;
pub mod handle;
pub mod registry;
pub mod string_map;
pub mod text;

pub use binding::{create_hashmap, free_hashmap, hashmap_set_value, SetError};
pub use handle::Handle;
pub use registry::{HandleError, HandleStatus, Registry};
pub use text::TextError;
