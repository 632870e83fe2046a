//! Webhook-triggered deployment runner: resolves a project identifier to its
//! deployment script, decides the HTTP answer, and records a timestamped log
//! entry describing the outcome of a deployment attempt.

pub mod dispatch;
pub mod executor;
pub mod logger;
pub mod mail;
pub mod registry;
pub mod text;
