//! Error vocabulary, response envelope and start-up configuration of an
//! authenticated backend service.
//!
//! Every failure that the service reports to a client is an [`error::HttpError`]:
//! a message and a status class. One function turns it into the two-field
//! envelope that goes on the wire. [`config::Config`] is built once, from the
//! values that the process was started with, or not at all.

pub mod config;
pub mod decimal;
pub mod error;
pub mod json;
pub mod models;
