//! Core logic of a GPU control daemon: fan-curve evaluation, the
//! configuration model and its persistence records, the device fan
//! scheduler and the start-up sequencing between the actors.

pub mod fan_curve;
pub mod linear_curve;
pub mod hysteresis_curve;
pub mod named_table;
pub mod gpu_device;
pub mod config_manager;
pub mod config_json;
pub mod devices_manager;
pub mod state_manager;
pub mod dbus_service;
pub mod errors;
pub mod arg_parser;
