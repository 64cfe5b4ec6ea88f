//! The rules of the Morphz dashboard server: who is let in and as whom, what is answered, and how
//! events, sessions, artifacts and providers are handled. What a server does around them, on
//! sockets, files and the runtime, is left to the caller.

pub mod approval;
pub mod artifact;
pub mod auth;
pub mod context;
pub mod control;
pub mod coordination;
pub mod dashboard;
pub mod digest;
pub mod endpoint;
pub mod error;
pub mod evaluation;
pub mod event;
pub mod follow;
pub mod headers;
pub mod ident;
pub mod inference;
pub mod json;
pub mod login;
pub mod message;
pub mod mirror;
pub mod model;
pub mod mount;
pub mod oauth;
pub mod provider;
pub mod recent;
pub mod reply;
pub mod search;
pub mod server;
pub mod session;
pub mod session_io;
pub mod stream;
pub mod text;
