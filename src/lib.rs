//! Identity resolution and authorization core: decides, for each request,
//! who is asking and what they may do.

pub mod cache;
pub mod callback;
pub mod capability;
pub mod codec;
pub mod roles;
pub mod session;
pub mod text;
pub mod user;
pub mod config;
pub mod context;
pub mod headers;
