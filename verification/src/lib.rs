//! A reconciler core that keeps a display's active refresh-rate mode aligned
//! with the device's power state: on battery it prefers the lowest refresh
//! rate available at the current resolution, on mains power the highest.
//!
//! The crate holds the verified logic only: the topology model, the mode
//! selector, the config builder, and the single-flight reconciliation
//! controller. Talking to the display-configuration service and to the
//! power/idle event source is left to the surrounding program, which feeds
//! plain snapshots and events in and carries the produced requests out.

pub mod controller;
pub mod display_config;
pub mod logical_monitor;
pub mod physical_monitor;
pub mod selector;
