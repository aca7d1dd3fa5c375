//! Captive-portal detection and recovery engine.
//!
//! The engine finds out whether the network is held behind a captive portal
//! and, if so, has the portal page opened. It probes the platform's detection
//! endpoints and the default gateway, classifies each reply, and, where every
//! probe fails on the network itself, switches the wireless interface off and
//! on and tries once more.
//!
//! The engine itself touches nothing outside the process. It is a state
//! machine ([`engine`]) that asks for one action at a time; the host loop
//! ([`driver`]) performs each action through collaborators that the caller
//! supplies and hands back what came of it. What holds of every run is stated
//! and proved in [`guarantees`].

pub mod cancel;
pub mod classify;
pub mod config;
pub mod detection;
pub mod driver;
pub mod engine;
pub mod error;
pub mod guarantees;
pub mod host;
pub mod orchestrator;
pub mod pattern;
pub mod progress;
pub mod report;
pub mod strategies;
pub mod text;
pub mod wifi;
