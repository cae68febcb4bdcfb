use vstd::prelude::*;

pub mod fixed;
pub mod text;
pub mod models;
pub mod cascade_error_analyzer;
pub mod catalog;
pub mod chronometry_comparator;
pub mod config_loader;
pub mod era_precision_comparator;
pub mod metrics;
pub mod vr_clepsydra;
pub mod analysis_service;
pub mod websocket;
pub mod alerts;
pub mod dtu_receiver;
pub mod mqtt_receiver;
pub mod hydraulic_simulator;

verus! {

} // verus!
