//! The broker: what it answers, and how it drives a connection.

pub mod broker;
pub mod connection;
