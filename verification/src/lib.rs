//! Resolution of the client settings of an Elasticsearch sink.
//!
//! A sink is configured with one or more endpoints, an authentication
//! strategy, static query parameters and an API version that is either given
//! or detected by asking the server. This crate turns such a configuration
//! into one immutable client descriptor per endpoint. All network traffic is
//! left to the caller: the crate says which request has to be sent and
//! decides what follows from the answer.

pub mod auth;
pub mod common;
pub mod config;
pub mod error;
pub mod mock;
pub mod params;
pub mod request;
pub mod text;
pub mod uri;
pub mod version;
