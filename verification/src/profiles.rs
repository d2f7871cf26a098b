//! Base sandbox profiles that consumers can build on top of.
//!
//! Each base is exposed as a function returning a widening
//! [`Builder`](crate::Builder), so a worker starts from one and chains its own
//! grants before calling [`Builder::build`](crate::Builder::build).

pub mod minimal;

pub use minimal::minimal;
