//! Authentication gate and ownership-scoped task rules of a small task service.
//!
//! The HTTP layer, the database and the token signature live outside; this
//! crate holds the decisions they feed: validation, error translation, login,
//! bearer admission and the owner checks on tasks.

pub mod ids;
pub mod error;
pub mod user;
pub mod auth;
pub mod task;
