//! Lifecycle control for one supervised service in a gossip-coordinated cluster.
//!
//! The crate holds the decisions only: when a process restart is issued, which
//! line is logged, how a configuration blob is swapped into place, in which
//! order a reconfiguration proceeds. The host performs the effects and hands
//! their outcomes back.

pub mod census;
pub mod config;
pub mod gossip;
pub mod group;
pub mod laws;
pub mod output;
pub mod reconfigure;
pub mod restart;
pub mod service;
pub mod views;
