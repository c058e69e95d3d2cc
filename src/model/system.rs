//! Systems, chassis, boot options and PCIe devices.
use vstd::prelude::*;

use crate::model::boot::Boot;
use crate::model::ODataId;

verus! {

/// The power state a system reports.
#[derive(Clone, Copy, Debug, PartialEq, Eq, Structural)]
pub enum PowerState {
    Off,
    On,
    PoweringOff,
    PoweringOn,
    Paused,
    Reset,
}

/// A power action on a system or chassis.
#[derive(Clone, Copy, Debug, PartialEq, Eq, Structural)]
pub enum SystemPowerControl {
    On,
    GracefulShutdown,
    ForceOff,
    GracefulRestart,
    ForceRestart,
    Nmi,
    PushPowerButton,
    PowerCycle,
}

/// One entry of a system's BootOptions collection.
#[derive(Clone, Debug)]
pub struct BootOption {
    pub id: String,
    pub display_name: String,
    pub uefi_device_path: Option<String>,
    pub boot_option_enabled: Option<bool>,
}

/// The part of a ComputerSystem the operations read.
#[derive(Clone, Debug)]
pub struct ComputerSystem {
    pub id: String,
    pub boot: Boot,
    pub power_state: Option<PowerState>,
}

/// The SecureBoot resource of a system.
#[derive(Clone, Debug)]
pub struct SecureBoot {
    pub secure_boot_enable: Option<bool>,
    pub secure_boot_current_boot: Option<String>,
    pub secure_boot_mode: Option<String>,
}

/// The `Status` member of a resource.
#[derive(Clone, Debug)]
pub struct ResourceStatus {
    pub health: Option<String>,
    pub state: Option<String>,
}

/// A PCIe device.
#[derive(Clone, Debug)]
pub struct PCIeDevice {
    pub odata_id: String,
    pub id: Option<String>,
    pub name: Option<String>,
    pub manufacturer: Option<String>,
    pub firmware_version: Option<String>,
    pub part_number: Option<String>,
    pub serial_number: Option<String>,
    pub status: Option<ResourceStatus>,
}

/// The part of a Chassis the operations read: which sub-resources it has.
#[derive(Clone, Debug)]
pub struct Chassis {
    pub id: String,
    pub sensors: Option<ODataId>,
    pub thermal_subsystem: Option<ODataId>,
    pub pcie_devices: Option<ODataId>,
    pub network_adapters: Option<ODataId>,
}

impl SystemPowerControl {
    /// The schema spelling of the value.
    pub open spec fn spec_wire_name(self) -> Seq<char> {
        match self {
            SystemPowerControl::On => "On"@,
            SystemPowerControl::GracefulShutdown => "GracefulShutdown"@,
            SystemPowerControl::ForceOff => "ForceOff"@,
            SystemPowerControl::GracefulRestart => "GracefulRestart"@,
            SystemPowerControl::ForceRestart => "ForceRestart"@,
            SystemPowerControl::Nmi => "Nmi"@,
            SystemPowerControl::PushPowerButton => "PushPowerButton"@,
            SystemPowerControl::PowerCycle => "PowerCycle"@,
        }
    }

    /// The schema spelling of the value.
    pub fn wire_name(self) -> (r: &'static str)
        ensures
            r@ == self.spec_wire_name(),
    {
        match self {
            SystemPowerControl::On => "On",
            SystemPowerControl::GracefulShutdown => "GracefulShutdown",
            SystemPowerControl::ForceOff => "ForceOff",
            SystemPowerControl::GracefulRestart => "GracefulRestart",
            SystemPowerControl::ForceRestart => "ForceRestart",
            SystemPowerControl::Nmi => "Nmi",
            SystemPowerControl::PushPowerButton => "PushPowerButton",
            SystemPowerControl::PowerCycle => "PowerCycle",
        }
    }
}

} // verus!
