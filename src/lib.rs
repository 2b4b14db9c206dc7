//! A transactional email service: validation of send requests and settings,
//! the providers that deliver a message, and the dispatcher between them.
pub mod environment;
pub mod error;
pub mod providers;
pub mod send;
pub mod settings;
pub mod text;
pub mod validate;
