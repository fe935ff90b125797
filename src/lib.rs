//! Presentation of rendered frames straight to a display output, without a
//! windowing system.
//!
//! The library models the display topology as plain values, picks the output
//! path, and runs the double-buffered page-flip protocol as a verified state
//! machine. The calls into the kernel are made by the caller, from the
//! requests that the state machine hands out.

pub mod search;
pub mod naming;
pub mod drm;
pub mod events;
pub mod window;


pub use drm::{connector_preferred_mode, first_encoder, get_connected_connectors, get_connector_name};
