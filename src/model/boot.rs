//! The boot settings of a ComputerSystem.
use vstd::prelude::*;

verus! {

/// The boot information of a system.
#[derive(Clone, Debug)]
pub struct Boot {
    pub automatic_retry_attempts: Option<i32>,
    pub automatic_retry_config: Option<AutomaticRetryConfig>,
    pub boot_next: Option<String>,
    pub boot_order: Vec<String>,
    pub boot_source_override_enabled: Option<BootSourceOverrideEnabled>,
    pub boot_source_override_target: Option<BootSourceOverrideTarget>,
    pub http_boot_uri: Option<String>,
    pub trusted_module_required_to_boot: Option<TrustedModuleRequiredToBoot>,
    pub uefi_target_boot_source_override: Option<String>,
}

#[derive(Clone, Copy, Debug, PartialEq, Eq, Structural)]
pub enum AutomaticRetryConfig {
    Disabled,
    RetryAttempts,
    RetryAlways,
}

#[derive(Clone, Copy, Debug, PartialEq, Eq, Structural)]
pub enum BootSourceOverrideEnabled {
    Once,
    Continuous,
    Disabled,
}

/// Where a boot override sends the host. `NoSource` is spelled `None` on the wire.
#[derive(Clone, Copy, Debug, PartialEq, Eq, Structural)]
pub enum BootSourceOverrideTarget {
    NoSource,
    Pxe,
    Floppy,
    Cd,
    Usb,
    Hdd,
    BiosSetup,
    Utilities,
    Diags,
    UefiShell,
    UefiTarget,
    SDCard,
    UefiHttp,
    RemoteDrive,
    UefiBootNext,
    Recovery,
}

#[derive(Clone, Copy, Debug, PartialEq, Eq, Structural)]
pub enum TrustedModuleRequiredToBoot {
    Disabled,
    Required,
}

impl BootSourceOverrideTarget {
    /// The schema spelling of the target.
    pub open spec fn spec_wire_name(self) -> Seq<char> {
        match self {
            BootSourceOverrideTarget::NoSource => "None"@,
            BootSourceOverrideTarget::Pxe => "Pxe"@,
            BootSourceOverrideTarget::Floppy => "Floppy"@,
            BootSourceOverrideTarget::Cd => "Cd"@,
            BootSourceOverrideTarget::Usb => "Usb"@,
            BootSourceOverrideTarget::Hdd => "Hdd"@,
            BootSourceOverrideTarget::BiosSetup => "BiosSetup"@,
            BootSourceOverrideTarget::Utilities => "Utilities"@,
            BootSourceOverrideTarget::Diags => "Diags"@,
            BootSourceOverrideTarget::UefiShell => "UefiShell"@,
            BootSourceOverrideTarget::UefiTarget => "UefiTarget"@,
            BootSourceOverrideTarget::SDCard => "SDCard"@,
            BootSourceOverrideTarget::UefiHttp => "UefiHttp"@,
            BootSourceOverrideTarget::RemoteDrive => "RemoteDrive"@,
            BootSourceOverrideTarget::UefiBootNext => "UefiBootNext"@,
            BootSourceOverrideTarget::Recovery => "Recovery"@,
        }
    }

    /// The schema spelling of the target.
    pub fn wire_name(self) -> (r: &'static str)
        ensures
            r@ == self.spec_wire_name(),
    {
        match self {
            BootSourceOverrideTarget::NoSource => "None",
            BootSourceOverrideTarget::Pxe => "Pxe",
            BootSourceOverrideTarget::Floppy => "Floppy",
            BootSourceOverrideTarget::Cd => "Cd",
            BootSourceOverrideTarget::Usb => "Usb",
            BootSourceOverrideTarget::Hdd => "Hdd",
            BootSourceOverrideTarget::BiosSetup => "BiosSetup",
            BootSourceOverrideTarget::Utilities => "Utilities",
            BootSourceOverrideTarget::Diags => "Diags",
            BootSourceOverrideTarget::UefiShell => "UefiShell",
            BootSourceOverrideTarget::UefiTarget => "UefiTarget",
            BootSourceOverrideTarget::SDCard => "SDCard",
            BootSourceOverrideTarget::UefiHttp => "UefiHttp",
            BootSourceOverrideTarget::RemoteDrive => "RemoteDrive",
            BootSourceOverrideTarget::UefiBootNext => "UefiBootNext",
            BootSourceOverrideTarget::Recovery => "Recovery",
        }
    }
}

impl BootSourceOverrideEnabled {
    /// The schema spelling of the setting.
    pub open spec fn spec_wire_name(self) -> Seq<char> {
        match self {
            BootSourceOverrideEnabled::Once => "Once"@,
            BootSourceOverrideEnabled::Continuous => "Continuous"@,
            BootSourceOverrideEnabled::Disabled => "Disabled"@,
        }
    }

    /// The schema spelling of the setting.
    pub fn wire_name(self) -> (r: &'static str)
        ensures
            r@ == self.spec_wire_name(),
    {
        match self {
            BootSourceOverrideEnabled::Once => "Once",
            BootSourceOverrideEnabled::Continuous => "Continuous",
            BootSourceOverrideEnabled::Disabled => "Disabled",
        }
    }
}

} // verus!
