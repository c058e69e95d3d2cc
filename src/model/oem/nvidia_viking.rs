//! BIOS attribute shapes of NVIDIA (Viking) hosts.
use vstd::prelude::*;

use crate::{EnableDisable, EnabledDisabled};

verus! {

/// Boot devices as the Viking BIOS names them. `NoDevice` is spelled `None` on the wire.
#[derive(Clone, Copy, Debug, PartialEq, Eq, Structural)]
pub enum BootDevices {
    NoDevice,
    Pxe,
    Floppy,
    Cd,
    Usb,
    Hdd,
    BiosSetup,
    Utilities,
    Diags,
    UefiShell,
    UefiTarget,
    SDCard,
    UefiHttp,
    RemoteDrive,
    UefiBootNext,
}

#[derive(Clone, Debug)]
pub struct BiosAttributes {
    pub acpi_spcr_baud_rate: String,
    pub acpi_spcr_console_redirection_enable: bool,
    pub acpi_spcr_flow_control: String,
    pub acpi_spcr_port: String,
    pub acpi_spcr_terminal_type: String,
    pub baud_rate0: String,
    pub boot_option1: String,
    pub boot_option2: String,
    pub boot_option3: String,
    pub boot_option4: String,
    pub boot_option5: String,
    pub boot_option6: String,
    pub boot_order: String,
    pub console_redirection_enable0: bool,
    pub enable_sgx: EnabledDisabled,
    pub kcs_interface_disable: String,
    pub ipv4_http: EnabledDisabled,
    pub ipv4_pxe: EnabledDisabled,
    pub ipv6_http: EnabledDisabled,
    pub ipv6_pxe: EnabledDisabled,
    pub processor_hyper_threading_disable: EnabledDisabled,
    pub processor_ltsx_enable: EnableDisable,
    pub processor_smx_enable: EnableDisable,
    pub processor_vmx_enable: EnableDisable,
    pub redfish_enable: EnabledDisabled,
    pub secure_boot_mode: String,
    pub secure_boot_support: EnabledDisabled,
    pub sriov_enable: EnableDisable,
    pub terminal_type0: String,
    pub tpm_operation: String,
    pub tpm_support: EnableDisable,
    pub vtd_support: EnableDisable,
}

#[derive(Clone, Debug)]
pub struct Bios {
    pub odata_context: String,
    pub attributes: BiosAttributes,
}

/// The BIOS attributes that make up lockdown.
#[derive(Clone, Debug)]
pub struct BiosLockdownAttributes {
    pub kcs_interface_disable: String,
    pub redfish_enable: EnabledDisabled,
}

#[derive(Clone, Debug)]
pub struct SetBiosLockdownAttributes {
    pub attributes: BiosLockdownAttributes,
}

#[derive(Clone, Debug)]
pub struct BiosSerialConsoleAttributes {
    pub acpi_spcr_baud_rate: String,
    pub acpi_spcr_console_redirection_enable: bool,
    pub acpi_spcr_flow_control: String,
    pub acpi_spcr_port: String,
    pub acpi_spcr_terminal_type: String,
    pub baud_rate0: String,
    pub console_redirection_enable0: bool,
    pub terminal_type0: String,
}

#[derive(Clone, Debug)]
pub struct SetBiosSerialConsoleAttributes {
    pub attributes: BiosSerialConsoleAttributes,
}

#[derive(Clone, Debug)]
pub struct BmcSerialConsoleAttributes {
    pub bit_rate: String,
    pub data_bits: String,
    pub flow_control: String,
    pub interface_enabled: bool,
    pub parity: String,
    pub stop_bits: String,
}

#[derive(Clone, Debug)]
pub struct TpmAttributes {
    pub tpm_operation: String,
    pub tpm_support: EnableDisable,
}

#[derive(Clone, Debug)]
pub struct SetTpmAttributes {
    pub attributes: TpmAttributes,
}

#[derive(Clone, Copy, Debug, PartialEq, Eq, Structural)]
pub struct VirtAttributes {
    pub sriov_enable: EnableDisable,
    pub vtd_support: EnableDisable,
}

#[derive(Clone, Copy, Debug, PartialEq, Eq, Structural)]
pub struct SetVirtAttributes {
    pub attributes: VirtAttributes,
}

#[derive(Clone, Copy, Debug, PartialEq, Eq, Structural)]
pub struct SgxAttributes {
    pub enable_sgx: EnabledDisabled,
    pub processor_ltsx_enable: EnableDisable,
    pub processor_smx_enable: EnableDisable,
    pub processor_vmx_enable: EnableDisable,
}

#[derive(Clone, Copy, Debug, PartialEq, Eq, Structural)]
pub struct SetSgxAttributes {
    pub attributes: SgxAttributes,
}

#[derive(Clone, Copy, Debug, PartialEq, Eq, Structural)]
pub struct UefiHttpAttributes {
    pub ipv4_http: EnabledDisabled,
    pub ipv4_pxe: EnabledDisabled,
    pub ipv6_http: EnabledDisabled,
    pub ipv6_pxe: EnabledDisabled,
}

#[derive(Clone, Copy, Debug, PartialEq, Eq, Structural)]
pub struct SetUefiHttpAttributes {
    pub attributes: UefiHttpAttributes,
}

} // verus!
