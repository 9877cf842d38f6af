//! A minimal simulator for data-link-layer transmission protocols.
//!
//! Two endpoints ("machines") exchange discrete data units ("frames") over an
//! abstract, possibly lossy channel. A lossless and a probabilistically lossy
//! channel variant share one polymorphic contract, and a stop-and-wait driver
//! built on top sends one data frame at a time and waits, with a bounded poll
//! budget, for its acknowledgment.

pub mod channel;
pub mod frame;
pub mod machine;
pub mod protocol;
