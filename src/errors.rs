use vstd::prelude::*;

use crate::config_manager::ConfigError;
use crate::dbus_service::DbusServiceError;
use crate::devices_manager::DevicesManagerError;
use crate::state_manager::StateManagerError;

verus! {

/// A failure anywhere in the daemon, as it reaches the error sink.
#[derive(Debug, Clone)]
pub enum MossdError {
    Config(ConfigError),
    DevicesManager(DevicesManagerError),
    StateManager(StateManagerError),
    DBusService(DbusServiceError),
}

} // verus!
