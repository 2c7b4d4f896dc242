//! Session authentication for a small HTTP service: the records it stores,
//! the responses it sends, how it reads the session cookie and how it decides
//! on registration, login, logout and access to protected routes.

pub mod common;
pub mod handler;
pub mod middleware;
