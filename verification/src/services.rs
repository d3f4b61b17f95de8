//! The remote operations that the service offers.

pub mod hello_world;
