//! Repository maintenance commands.
pub mod health_check;
