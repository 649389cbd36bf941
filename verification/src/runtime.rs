//! Request-time helpers: prompt context assembly and personalization migration.

pub mod context;
pub mod personalization;
