//! Batch summary notifications.

pub mod email;
