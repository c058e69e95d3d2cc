//! The one operation surface every caller uses. A backend is picked from the BMC's
//! identity; each operation is handed to that backend unchanged.
use vstd::prelude::*;

use crate::boot_order::BootOptionMatchField;
use crate::model::ODataId;
use crate::error::{ErrorView, RedfishError};
use crate::model::boot::BootSourceOverrideEnabled;
use crate::model::oem::nvidia_viking::BiosLockdownAttributes;
use crate::model::system::{BootOption, SystemPowerControl};
use crate::nvidia_gbx00::{boot_first_match, boot_option_label, BootOptionName, UEFI_PASSWORD_NAME};
use crate::request::{result_view, strings_view, Request, RequestView};
use crate::model::account_service::{ManagerAccount, RoleId};
use crate::standard::{find_account, no_user_message, enabled_disabled_text, lockdown_state, override_target_of, RedfishStandard};
use crate::text::{contains, has_infix, lower_of, to_lower};
use crate::{nvidia, nvidia_gbx00, Boot, EnabledDisabled, Status};

verus! {

/// The kind of BMC, as read from its manager's Manufacturer and Model.
#[derive(Clone, Copy, Debug, PartialEq, Eq, Structural)]
pub enum BmcVendor {
    Dell,
    Lenovo,
    Nvidia,
    NvidiaGb200,
    Standard,
}

/// The vendor of a manager: by Manufacturer, compared in lower case; an NVIDIA manager
/// whose Model holds `GB200` or `Bianca` is a GB200.
pub open spec fn vendor_of(manufacturer: Seq<char>, model: Seq<char>) -> BmcVendor {
    let m = lower_of(manufacturer);
    if has_infix(m, "dell"@) {
        BmcVendor::Dell
    } else if has_infix(m, "lenovo"@) {
        BmcVendor::Lenovo
    } else if has_infix(m, "nvidia"@) {
        if has_infix(model, "GB200"@) || has_infix(model, "Bianca"@) {
            BmcVendor::NvidiaGb200
        } else {
            BmcVendor::Nvidia
        }
    } else {
        BmcVendor::Standard
    }
}

/// The vendor of a manager with `manufacturer` and `model`.
pub fn detect_vendor(manufacturer: &str, model: &str) -> (r: BmcVendor)
    ensures
        r == vendor_of(manufacturer@, model@),
{
    let m = to_lower(manufacturer);
    if contains(m.as_str(), "dell") {
        BmcVendor::Dell
    } else if contains(m.as_str(), "lenovo") {
        BmcVendor::Lenovo
    } else if contains(m.as_str(), "nvidia") {
        if contains(model, "GB200") || contains(model, "Bianca") {
            BmcVendor::NvidiaGb200
        } else {
            BmcVendor::Nvidia
        }
    } else {
        BmcVendor::Standard
    }
}

/// The operation surface: the selected backend, to which every operation is handed.
#[derive(Clone, Debug)]
pub enum Redfish {
    Standard(RedfishStandard),
    Nvidia(nvidia::Bmc),
    NvidiaGbx00(nvidia_gbx00::Bmc),
}

impl Redfish {
    /// The standard backend that the selected one holds.
    pub open spec fn standard(&self) -> RedfishStandard {
        match self {
            Redfish::Standard(s) => *s,
            Redfish::Nvidia(b) => b.s,
            Redfish::NvidiaGbx00(b) => b.s,
        }
    }

    /// The standard backend that the selected one holds.
    pub fn standard_backend(&self) -> (r: &RedfishStandard)
        ensures
            *r == self.standard(),
    {
        match self {
            Redfish::Standard(s) => s,
            Redfish::Nvidia(b) => &b.s,
            Redfish::NvidiaGbx00(b) => &b.s,
        }
    }

    /// The backend for `vendor` over `s`. Dell and Lenovo BMCs are served by the
    /// standard backend.
    pub fn for_vendor(vendor: BmcVendor, s: RedfishStandard) -> (r: Redfish)
        ensures
            r.standard() == s,
            vendor == BmcVendor::Nvidia <==> r is Nvidia,
            vendor == BmcVendor::NvidiaGb200 <==> r is NvidiaGbx00,
    {
        match vendor {
            BmcVendor::Nvidia => Redfish::Nvidia(nvidia::Bmc { s }),
            BmcVendor::NvidiaGb200 => Redfish::NvidiaGbx00(nvidia_gbx00::Bmc { s }),
            _ => Redfish::Standard(s),
        }
    }

    /// Change the power state.
    pub fn power(&self, action: SystemPowerControl) -> (r: Request)
        ensures
            r@ == self.standard().spec_power(action),
    {
        match self {
            Redfish::Standard(s) => s.power(action),
            Redfish::Nvidia(b) => b.s.power(action),
            Redfish::NvidiaGbx00(b) => b.s.power(action),
        }
    }

    /// Read the power state.
    pub fn get_power_state(&self) -> (r: Request)
        ensures
            r@ == self.standard().spec_get_system(),
    {
        match self {
            Redfish::Standard(s) => s.get_power_state(),
            Redfish::Nvidia(b) => b.s.get_power_state(),
            Redfish::NvidiaGbx00(b) => b.s.get_power_state(),
        }
    }

    /// Read a task.
    pub fn get_task(&self, id: &str) -> (r: Request)
        ensures
            r@ == self.standard().spec_get_task(id@),
    {
        match self {
            Redfish::Standard(s) => s.get_task(id),
            Redfish::Nvidia(b) => b.s.get_task(id),
            Redfish::NvidiaGbx00(b) => b.s.get_task(id),
        }
    }

    /// Read the SecureBoot resource.
    pub fn get_secure_boot(&self) -> (r: Request)
        ensures
            r@ == self.standard().spec_get_secure_boot(),
    {
        match self {
            Redfish::Standard(s) => s.get_secure_boot(),
            Redfish::Nvidia(b) => b.s.get_secure_boot(),
            Redfish::NvidiaGbx00(b) => b.s.get_secure_boot(),
        }
    }

    /// Turn secure boot off.
    pub fn disable_secure_boot(&self) -> (r: Request)
        ensures
            r@ == self.standard().spec_set_secure_boot(false),
    {
        match self {
            Redfish::Standard(s) => s.disable_secure_boot(),
            Redfish::Nvidia(b) => b.s.disable_secure_boot(),
            Redfish::NvidiaGbx00(b) => b.s.disable_secure_boot(),
        }
    }

    /// Turn secure boot on.
    pub fn enable_secure_boot(&self) -> (r: Request)
        ensures
            r@ == self.standard().spec_set_secure_boot(true),
    {
        match self {
            Redfish::Standard(s) => s.enable_secure_boot(),
            Redfish::Nvidia(b) => b.s.enable_secure_boot(),
            Redfish::NvidiaGbx00(b) => b.s.enable_secure_boot(),
        }
    }

    /// Read the UpdateService.
    pub fn get_update_service(&self) -> (r: Request)
        ensures
            r@ == self.standard().spec_get_update_service(),
    {
        match self {
            Redfish::Standard(s) => s.get_update_service(),
            Redfish::Nvidia(b) => b.s.get_update_service(),
            Redfish::NvidiaGbx00(b) => b.s.get_update_service(),
        }
    }

    /// Read the BIOS attributes.
    pub fn bios(&self) -> (r: Request)
        ensures
            r@ == self.standard().spec_get_bios(),
    {
        match self {
            Redfish::Standard(s) => s.bios(),
            Redfish::Nvidia(b) => b.s.bios(),
            Redfish::NvidiaGbx00(b) => b.s.bios(),
        }
    }

    /// Read the staged BIOS attributes.
    pub fn pending(&self) -> (r: Request)
        ensures
            r@ == self.standard().spec_pending(),
    {
        match self {
            Redfish::Standard(s) => s.pending(),
            Redfish::Nvidia(b) => b.s.pending(),
            Redfish::NvidiaGbx00(b) => b.s.pending(),
        }
    }

    /// Restart the BMC.
    pub fn bmc_reset(&self) -> (r: Request)
        ensures
            r@ == self.standard().spec_bmc_reset(),
    {
        match self {
            Redfish::Standard(s) => s.bmc_reset(),
            Redfish::Nvidia(b) => b.s.bmc_reset(),
            Redfish::NvidiaGbx00(b) => b.s.bmc_reset(),
        }
    }

    /// Lockdown status from the BIOS attributes.
    pub fn lockdown_status(&self, attrs: &BiosLockdownAttributes) -> (r: Status)
        ensures
            r.status == lockdown_state(attrs.kcs_interface_disable@, attrs.redfish_enable),
            r.message@ == "kcs_interface_disable="@ + attrs.kcs_interface_disable@ + ", redfish_enable="@
                + enabled_disabled_text(attrs.redfish_enable),
    {
        match self {
            Redfish::Standard(s) => s.lockdown_status(attrs),
            Redfish::Nvidia(b) => b.s.lockdown_status(attrs),
            Redfish::NvidiaGbx00(b) => b.s.lockdown_status(attrs),
        }
    }

    pub open spec fn spec_boot_once(&self, target: Boot) -> RequestView {
        match self {
            Redfish::NvidiaGbx00(b) => b.spec_set_boot_override(
                override_target_of(target),
                BootSourceOverrideEnabled::Once,
            ),
            _ => self.standard().spec_boot_once(target),
        }
    }

    /// Boot once from `target`.
    pub fn boot_once(&self, target: Boot) -> (r: Request)
        ensures
            r@ == self.spec_boot_once(target),
    {
        match self {
            Redfish::Standard(s) => s.boot_once(target),
            Redfish::Nvidia(b) => b.s.boot_once(target),
            Redfish::NvidiaGbx00(b) => b.boot_once(target),
        }
    }

    pub open spec fn spec_boot_first(&self, target: Boot, opts: Seq<BootOption>) -> Result<RequestView, ErrorView> {
        match self {
            Redfish::NvidiaGbx00(b) => b.spec_boot_first(target, opts),
            _ => self.standard().spec_first_by(opts, boot_first_match(target).0, boot_option_label(boot_first_match(target).1)),
        }
    }

    /// Put `target` first in the persistent boot order. `options` are the system's boot
    /// options in its current BootOrder.
    pub fn boot_first(&self, target: Boot, options: &Vec<BootOption>) -> (r: Result<Request, RedfishError>)
        ensures
            result_view(r) == self.spec_boot_first(target, options@),
    {
        let (field, name) = match target {
            Boot::Pxe => (BootOptionMatchField::DisplayName, BootOptionName::Pxe),
            Boot::HardDisk => (BootOptionMatchField::UefiDevicePath, BootOptionName::Hdd),
            Boot::UefiHttp => (BootOptionMatchField::DisplayName, BootOptionName::Http),
        };
        match self {
            Redfish::Standard(s) => s.boot_first_by(options, field, name.to_string()),
            Redfish::Nvidia(b) => b.s.boot_first_by(options, field, name.to_string()),
            Redfish::NvidiaGbx00(b) => b.boot_first(target, options),
        }
    }

    pub open spec fn spec_change_boot_order(&self, ids: Seq<Seq<char>>) -> RequestView {
        match self {
            Redfish::NvidiaGbx00(b) => b.spec_change_boot_order(ids),
            _ => self.standard().spec_change_boot_order(ids),
        }
    }

    /// Make `boot_array` the persistent boot order.
    pub fn change_boot_order(&self, boot_array: Vec<String>) -> (r: Request)
        ensures
            r@ == self.spec_change_boot_order(strings_view(boot_array@)),
    {
        match self {
            Redfish::Standard(s) => s.change_boot_order(boot_array),
            Redfish::Nvidia(b) => b.s.change_boot_order(boot_array),
            Redfish::NvidiaGbx00(b) => b.change_boot_order(boot_array),
        }
    }

    pub open spec fn spec_lockdown(&self, target: EnabledDisabled) -> Option<RequestView> {
        match self {
            Redfish::NvidiaGbx00(_) => None,
            _ => Some(self.standard().spec_lockdown(target)),
        }
    }

    /// Lock the host down, or undo it; `None` where the BMC offers no lockdown.
    pub fn lockdown(&self, target: EnabledDisabled) -> (r: Option<Request>)
        ensures
            match r {
                Some(q) => self.spec_lockdown(target) == Some(q@),
                None => self.spec_lockdown(target) is None,
            },
    {
        match self {
            Redfish::Standard(s) => Some(s.lockdown(target)),
            Redfish::Nvidia(b) => Some(b.s.lockdown(target)),
            Redfish::NvidiaGbx00(b) => b.lockdown(target),
        }
    }

    pub open spec fn spec_change_uefi_password(&self, current: Seq<char>, new: Seq<char>) -> RequestView {
        match self {
            Redfish::Nvidia(b) => b.spec_change_uefi_password(current, new),
            _ => self.standard().spec_change_bios_password(UEFI_PASSWORD_NAME@, current, new),
        }
    }

    /// Change the UEFI password.
    pub fn change_uefi_password(&self, current: &str, new: &str) -> (r: Request)
        ensures
            r@ == self.spec_change_uefi_password(current@, new@),
    {
        match self {
            Redfish::Standard(s) => s.change_bios_password(UEFI_PASSWORD_NAME, current, new),
            Redfish::Nvidia(b) => b.change_uefi_password(current, new),
            Redfish::NvidiaGbx00(b) => b.change_uefi_password(current, new),
        }
    }

    pub open spec fn spec_get_system_ethernet_interface(&self, id: Seq<char>) -> Result<RequestView, ErrorView> {
        match self {
            Redfish::NvidiaGbx00(_) => Err(ErrorView::NotSupported(nvidia_gbx00::no_system_ethernet_message())),
            _ => Ok(self.standard().spec_get_system_ethernet_interface(id)),
        }
    }

    /// Read one of the system's EthernetInterfaces.
    pub fn get_system_ethernet_interface(&self, id: &str) -> (r: Result<Request, RedfishError>)
        ensures
            result_view(r) == self.spec_get_system_ethernet_interface(id@),
    {
        match self {
            Redfish::Standard(s) => Ok(s.get_system_ethernet_interface(id)),
            Redfish::Nvidia(b) => Ok(b.s.get_system_ethernet_interface(id)),
            Redfish::NvidiaGbx00(b) => b.get_system_ethernet_interface(id),
        }
    }
}

impl Redfish {
    /// Create an account.
    pub fn create_user(&self, username: &str, password: &str, role_id: RoleId) -> (r: Request)
        ensures
            r@ == self.standard().spec_create_user(username@, password@, role_id),
    {
        self.standard_backend().create_user(username, password, role_id)
    }

    /// Set the password of the account called `user`, found among `accounts`.
    pub fn change_password(&self, accounts: &Vec<ManagerAccount>, user: &str, new: &str) -> (r: Result<Request, RedfishError>)
        ensures
            match find_account(accounts@, user@) {
                Some(i) => r is Ok && r->Ok_0@ == self.standard().spec_patch_account(accounts@[i].id@, "Password"@, new@),
                None => r is Err && r->Err_0@ == ErrorView::NotFound(no_user_message(user@)),
            },
    {
        self.standard_backend().change_password(accounts, user, new)
    }
}

impl Redfish {
    /// Read the service root.
    pub fn get_service_root(&self) -> (r: Request)
        ensures
            r@ == self.standard().spec_get_service_root(),
    {
        self.standard_backend().get_service_root()
    }

    /// Read the systems collection.
    pub fn get_systems(&self) -> (r: Request)
        ensures
            r@ == self.standard().spec_get_systems(),
    {
        self.standard_backend().get_systems()
    }

    /// Read the managers collection.
    pub fn get_managers(&self) -> (r: Request)
        ensures
            r@ == self.standard().spec_get_managers(),
    {
        self.standard_backend().get_managers()
    }

    /// Read the collection `id` names.
    pub fn get_collection(&self, id: &ODataId) -> (r: Request)
        ensures
            r@ == self.standard().spec_get_collection(id.odata_id@),
    {
        self.standard_backend().get_collection(id)
    }

    /// Read the resource `id` names.
    pub fn get_resource(&self, id: &ODataId) -> (r: Request)
        ensures
            r@ == self.standard().spec_get_resource(id.odata_id@),
    {
        self.standard_backend().get_resource(id)
    }

    /// Read the NetworkAdapters collection of a chassis.
    pub fn get_chassis_network_adapters(&self, chassis_id: &str) -> (r: Request)
        ensures
            r@ == self.standard().spec_get_chassis_network_adapters(chassis_id@),
    {
        self.standard_backend().get_chassis_network_adapters(chassis_id)
    }

    /// Read one NetworkAdapter of a chassis.
    pub fn get_chassis_network_adapter(&self, chassis_id: &str, id: &str) -> (r: Request)
        ensures
            r@ == self.standard().spec_get_chassis_network_adapter(chassis_id@, id@),
    {
        self.standard_backend().get_chassis_network_adapter(chassis_id, id)
    }

    /// Read the NetworkAdapters collection of a system.
    pub fn get_base_network_adapters(&self, system_id: &str) -> (r: Request)
        ensures
            r@ == self.standard().spec_get_base_network_adapters(system_id@),
    {
        self.standard_backend().get_base_network_adapters(system_id)
    }

    /// Read one NetworkAdapter of a system.
    pub fn get_base_network_adapter(&self, system_id: &str, id: &str) -> (r: Request)
        ensures
            r@ == self.standard().spec_get_base_network_adapter(system_id@, id@),
    {
        self.standard_backend().get_base_network_adapter(system_id, id)
    }

    /// Read the manager's EthernetInterfaces collection.
    pub fn get_manager_ethernet_interfaces(&self) -> (r: Request)
        ensures
            r@ == self.standard().spec_get_manager_ethernet_interfaces(),
    {
        self.standard_backend().get_manager_ethernet_interfaces()
    }

    /// Read one of the manager's EthernetInterfaces.
    pub fn get_manager_ethernet_interface(&self, id: &str) -> (r: Request)
        ensures
            r@ == self.standard().spec_get_manager_ethernet_interface(id@),
    {
        self.standard_backend().get_manager_ethernet_interface(id)
    }
}

} // verus!
