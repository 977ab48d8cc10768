//! Metrics, rate derivation and row selection for a terminal dashboard of
//! virtual machines.

pub mod text;
pub mod vms;
pub mod rates;
pub mod app;
pub mod handler;
