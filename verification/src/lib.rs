//! Verified core of the kx-page backend: admin authentication, request
//! decisions, SQL statement building, event time handling and storage summaries.
//! The HTTP server, the database and the file system stay outside, in `app/`.

pub mod text;
pub mod hex;
pub mod auth;
pub mod messages;
pub mod reply;
pub mod sql;
pub mod decimal;
pub mod dates;
pub mod query;
pub mod storage;
pub mod events;
pub mod images;
pub mod config;
