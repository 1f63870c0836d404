//! A verified protocol layer over a handle-based accelerator runtime.
//!
//! The runtime itself is reached through a narrow foreign interface that
//! reports integer status codes and hands out raw handles. Every operation of
//! this crate is split in two: a planning step that validates the request and
//! either refuses it or names the foreign call to make, and a completion step
//! that takes what the foreign call reported and updates the state. The caller
//! performs the foreign call in between. A refused plan carries no request, so
//! no foreign call can follow it.
pub mod cstr;
pub mod data;
pub mod error;
pub mod model;
pub mod runtime;
pub mod tensor;
