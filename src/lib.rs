//! A user-management core: self-validating value objects, the `User`
//! aggregate, a persistence port with an in-memory adapter, and the domain and
//! application services that keep every stored email address unique.
pub mod app_service;
pub mod config;
pub mod domain_service;
pub mod dto;
pub mod error;
pub mod memory_repository;
pub mod port;
pub mod text;
pub mod user;
