pub mod auth;
pub mod configs;
pub mod events;
pub mod message;
pub mod parse;
pub mod pipeline;
pub mod resolve;
