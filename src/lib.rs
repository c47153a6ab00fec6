//! Plan resolution and pipeline-payload synthesis for a configuration-driven
//! CI gateway: value and view models, the ansible command synthesizer, the
//! pipeline payload builder, the webhook dispatcher and the role filter.

pub mod value;
pub mod views;
pub mod errors;
pub mod ansible;
pub mod pipeline;
pub mod config;
pub mod external;
pub mod resolve;
pub mod payload;
pub mod tokens;
pub mod dispatch;
pub mod access;
pub mod auth;
pub mod inventory;
pub mod refs;
pub mod loader;
