//! Event-sourced core of a weather monitoring service, verified with Verus.
//!
//! Three aggregates carry the service: the [`registrar`] of the monitored
//! forecast zones, the aggregate of each [`zone`], and the [`saga`] that
//! updates the weather of a set of zones step by step. Each is a state
//! machine: `handle` answers a command with events without changing the
//! aggregate, `apply` advances the aggregate by an event, and a replay of the
//! events gives the aggregate back. What holds of every run of the saga is
//! proved in [`saga_laws`].
//!
//! The aggregates do not call each other. The events of the zones reach the
//! saga through a [`subscriber`], and the saga's start reaches the zones
//! through the [`controller`]; [`connect`] holds the two ends of the channels
//! between them and [`envelope`] what travels through them. None of this
//! waits or sends: every function here takes what has arrived and says what
//! is to happen next.
//!
//! [`provider`], [`aggregation`] and [`weather`] hold the weather provider's
//! side: where its reports are found and how they are read. [`health`] and
//! [`http`] hold what the HTTP API reports.

pub mod aggregation;
pub mod connect;
pub mod controller;
pub mod envelope;
pub mod errors;
pub mod happy;
pub mod health;
pub mod http;
pub mod keyed;
pub mod provider;
pub mod quality;
pub mod registrar;
pub mod saga;
pub mod saga_laws;
pub mod seq_facts;
pub mod settings;
pub mod subscriber;
pub mod weather;
pub mod zone;
pub mod zone_code;

pub use registrar::Registrar;
pub use saga::UpdateLocations;
pub use zone::LocationZone;
pub use zone_code::{LocationZoneCode, LocationZoneType};
