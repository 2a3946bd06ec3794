//! Session/identity core of a user-account backend.
//!
//! The library covers the pieces where correctness matters: stateless
//! issuance and verification of signed access/refresh tokens, the
//! refresh-rotation protocol, the request-authentication gate, and the
//! transactional, role-aware user store and service that they protect.
//! HTTP routing and other process plumbing stay outside the library.

pub mod config;
pub mod entity;
pub mod errors;
pub mod handlers;
pub mod hash;
pub mod ids;
pub mod jwt;
pub mod middleware;
pub mod pagination;
pub mod requests;
pub mod responses;
pub mod service;
pub mod session;
pub mod store;

pub use errors::AppError;
pub use errors::AppErrorMessage;
