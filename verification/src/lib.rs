//! Subscriber lifecycle of a newsletter: validated identity values, the
//! subscription, confirmation and broadcast workflows as state machines, and
//! the requests handed to the stores and to the email provider.

pub mod config;
pub mod domain;
pub mod email_client;
pub mod model;
pub mod routes;
pub mod startup;
pub mod text;
