//! A client library for Baseboard Management Controllers speaking Redfish.
//!
//! The library decides what to send and how to read what comes back: it builds every
//! request an operation needs, plans the multi-step walks (boot order, telemetry
//! stitching, PCIe inventory), assembles results, and runs the retry and task-polling
//! state machines. Performing the HTTP exchanges is left to the caller.
use vstd::prelude::*;

pub mod boot_order;
pub mod error;
pub mod facade;
pub mod json;
pub mod model;
pub mod nvidia;
pub mod nvidia_gbx00;
pub mod pcie;
pub mod request;
pub mod standard;
pub mod stitching;
pub mod task_poll;
pub mod text;
pub mod transport;
pub mod url;

verus! {

/// Where a host should boot from.
#[derive(Clone, Copy, Debug, PartialEq, Eq, Structural)]
pub enum Boot {
    Pxe,
    HardDisk,
    UefiHttp,
}

/// A two-valued setting spelled `Enabled` / `Disabled` on the wire.
#[derive(Clone, Copy, Debug, PartialEq, Eq, Structural)]
pub enum EnabledDisabled {
    Enabled,
    Disabled,
}

/// A two-valued setting spelled `Enable` / `Disable` on the wire.
#[derive(Clone, Copy, Debug, PartialEq, Eq, Structural)]
pub enum EnableDisable {
    Enable,
    Disable,
}

/// How far a composite setting (lockdown, serial console) has been applied.
#[derive(Clone, Copy, Debug, PartialEq, Eq, Structural)]
pub enum StatusInternal {
    Enabled,
    Partial,
    Disabled,
}

/// The current status of something (lockdown, serial console): enabled, disabled, or
/// only partially applied, with a vendor message on the individual parts.
#[derive(Clone, Debug)]
pub struct Status {
    pub status: StatusInternal,
    pub message: String,
}

impl Status {
    /// Did enabling complete successfully?
    pub fn is_fully_enabled(&self) -> (r: bool)
        ensures
            r == (self.status == StatusInternal::Enabled),
    {
        self.status == StatusInternal::Enabled
    }

    /// Did disabling complete successfully (or was the thing never enabled)?
    pub fn is_fully_disabled(&self) -> (r: bool)
        ensures
            r == (self.status == StatusInternal::Disabled),
    {
        self.status == StatusInternal::Disabled
    }

    /// Did enabling or disabling stop part way through?
    pub fn is_partially_enabled(&self) -> (r: bool)
        ensures
            r == (self.status == StatusInternal::Partial),
    {
        self.status == StatusInternal::Partial
    }

    /// The vendor message detailing the parts. Its format may change: do not parse it.
    pub fn message(&self) -> (r: &str)
        ensures
            r@ == self.message@,
    {
        self.message.as_str()
    }
}

/// One setting that differs from what machine setup wants.
#[derive(Clone, Debug)]
pub struct MachineSetupDiff {
    pub key: String,
    pub expected: String,
    pub actual: String,
}

/// Whether machine setup is complete, and what still differs.
#[derive(Clone, Debug)]
pub struct MachineSetupStatus {
    pub is_done: bool,
    pub diffs: Vec<MachineSetupDiff>,
}

} // verus!
