//! Value types mirroring the Redfish resources the operations read and write.
use vstd::prelude::*;

pub mod account_service;
pub mod boot;
pub mod error;
pub mod job;
pub mod manager_network_protocol;
pub mod oem;
pub mod sensor;
pub mod system;
pub mod task;
pub mod update_service;

verus! {

/// The identifying header every Redfish resource carries.
#[derive(Clone, Debug)]
pub struct ODataLinks {
    pub odata_context: Option<String>,
    pub odata_id: String,
    pub odata_type: String,
}

/// A reference to another resource: `{"@odata.id": ..}`.
#[derive(Clone, Debug)]
pub struct ODataId {
    pub odata_id: String,
}

/// One message of a Redfish error or task.
#[derive(Clone, Debug)]
pub struct Message {
    pub message: String,
    pub message_id: String,
    pub message_args: Vec<String>,
    pub severity: Option<String>,
    pub resolution: Option<String>,
}

/// A copy of an optional string.
pub fn clone_opt_string(s: &Option<String>) -> (r: Option<String>)
    ensures
        r == *s,
{
    match s {
        Some(v) => Some(v.clone()),
        None => None,
    }
}

impl ODataLinks {
    /// A copy of the header.
    pub fn duplicate(&self) -> (r: ODataLinks)
        ensures
            r == *self,
    {
        ODataLinks {
            odata_context: clone_opt_string(&self.odata_context),
            odata_id: self.odata_id.clone(),
            odata_type: self.odata_type.clone(),
        }
    }
}

} // verus!
