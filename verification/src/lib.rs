//! Core of a live-session ingestion pipeline.
//!
//! The library resolves session metadata out of a fetched page's embedded
//! script state, models the lifecycle of a cancellable polling loop, builds
//! the update-fetch requests that loop sends, and distributes fetched updates
//! to subscribers through a bounded, lossy, fan-out event bus. All decisions
//! are made here on plain values; the network calls and task scheduling that
//! drive them live outside the library.

pub mod bus;
pub mod chat;
pub mod request;
pub mod scan;
