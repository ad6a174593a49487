//! A bounded blocking queue for handing values from producer threads to
//! consumer threads, with back-pressure in both directions.
//!
//! [`queue::Queue`] is the handle that threads share. Under its lock lies a
//! [`buffer::Buffer`], which holds the items and keeps to the capacity;
//! [`history`] says what holds of every order in which insertions and
//! removals can complete.

pub mod buffer;
pub mod history;
pub mod queue;
mod sync;
