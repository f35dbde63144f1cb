//! What the client knows about itself and its controller.

use vstd::prelude::*;

verus! {

/// The client's configuration.
#[derive(Debug, Clone)]
pub struct CloudClientConfig {
    /// Address of the controller.
    pub cloud_url: String,
    /// Hardware address of the device.
    pub mac_address: String,
    /// Identifier of the device.
    pub cb_id: String,
}

} // verus!
