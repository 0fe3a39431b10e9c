//! Cast devices as found on the network and as shown to the user.

use vstd::prelude::*;
use vstd::string::*;

verus! {

/// A cast device as shown to the user.
#[derive(Debug, Clone)]
pub struct ChromecastDeviceInfo {
    pub id: String,
    pub name: String,
    pub model: String,
    pub address: String,
    pub port: u16,
    pub status: DeviceStatus,
}

/// How far the connection to a cast device has come.
#[derive(Debug, Clone, Copy, PartialEq, Eq, Structural)]
pub enum DeviceStatus {
    Discovered,
    Connecting,
    Connected,
    Error,
}

/// A cast device as found on the network.
#[derive(Debug, Clone)]
pub struct DiscoveredDevice {
    pub id: String,
    pub name: String,
    pub model: String,
    pub address: String,
    pub port: u16,
}

impl DiscoveredDevice {
    /// The device as shown to the user, in the given status.
    pub fn to_info(&self, status: DeviceStatus) -> (r: ChromecastDeviceInfo)
        ensures
            r.id@ == self.id@,
            r.name@ == self.name@,
            r.model@ == self.model@,
            r.address@ == self.address@,
            r.port == self.port,
            r.status == status,
    {
        ChromecastDeviceInfo {
            id: self.id.clone(),
            name: self.name.clone(),
            model: self.model.clone(),
            address: self.address.clone(),
            port: self.port,
            status,
        }
    }
}

} // verus!
