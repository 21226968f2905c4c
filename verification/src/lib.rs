//! Verified core of a log-query service.
//!
//! The library turns a structured query (resource filters, time range,
//! severity, pagination) into a backend filter expression, plans the
//! backend invocation, drives a bounded exponential-backoff retry, and
//! renders returned log entries.  Process I/O (the backend subprocess,
//! the credential probe, sleeps) lives outside the library; every
//! decision the service makes is verified here.

pub mod auth;
pub mod decimal;
pub mod errors;
pub mod filters;
pub mod formatter;
pub mod gcloud;
pub mod json;
pub mod models;
pub mod request;
pub mod retry;
pub mod service;
pub mod time;
