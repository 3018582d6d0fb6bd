//! A message service: identifiers and records of chat messages, an in-memory
//! repository ordered newest first, the service that validates and delegates to
//! it, and the decisions of the HTTP layer (authentication, ownership,
//! authorization and the mapping of errors to status codes).
pub mod ids;
mod system;
pub mod message;
pub mod errors;
pub mod pagination;
pub mod repository;
pub mod health;
pub mod service;
pub mod laws;
pub mod auth;
pub mod response;
pub mod handlers;
pub mod search;
pub mod routing;
pub mod config;
