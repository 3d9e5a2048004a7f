//! A small Kafka consumer: how its connection settings are resolved, and how
//! each record and transport error it receives is turned into an output line.
pub mod config;
pub mod consume;
pub mod record;
pub mod text;
