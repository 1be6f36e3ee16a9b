//! Telemetry bridge: routes bus publishes to durable storage and live viewers.

pub mod config;
pub mod connection;
pub mod dispatch;
pub mod entity;
pub mod hub;
pub mod topic;
pub mod viewer;
