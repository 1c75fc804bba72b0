//! Boarding, deboarding and cargo loading of a four-zone, four-hold airliner.
//!
//! The per-tick orchestrator in [`payload`] reconciles each station's current
//! load with its target under a boarding rate, keeps the stations in step with
//! their externally stored values, and derives the cabin sound cues.
pub mod layout;
pub mod station;
pub mod sounds;
pub mod payload;
pub mod laws;
