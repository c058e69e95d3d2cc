//! The backend for a Redfish service that follows the standard. Every vendor backend
//! holds one and hands it the operations where the vendor does not diverge.
use vstd::prelude::*;

use crate::error::{ErrorView, RedfishError};
use crate::model::boot::{BootSourceOverrideEnabled, BootSourceOverrideTarget};
use crate::model::oem::nvidia_viking::BiosLockdownAttributes;
use crate::model::system::SystemPowerControl;
use crate::request::{
    attributes_view, flag_attribute, text_attribute, AttributeView, Body, BodyView, Method,
    Request, RequestView, ValueView,
};
use crate::text::str_eq;
use crate::model::ODataId;
use crate::url::{relative_url, strip_redfish_prefix};
use crate::boot_order::{boot_order_with_first, reorder_result, BootOptionMatchField};
use crate::model::system::BootOption;
use crate::model::account_service::{ManagerAccount, RoleId};
use crate::model::update_service::TransferProtocolType;
use crate::request::{result_view, strings_view};
use crate::url::{cat2, cat3, cat4};
use crate::{Boot, EnabledDisabled, Status, StatusInternal};

verus! {

/// The override target that boots a host once from `target`.
pub open spec fn override_target_of(target: Boot) -> BootSourceOverrideTarget {
    match target {
        Boot::Pxe => BootSourceOverrideTarget::Pxe,
        Boot::HardDisk => BootSourceOverrideTarget::Hdd,
        Boot::UefiHttp => BootSourceOverrideTarget::UefiHttp,
    }
}

/// The override target that boots a host once from `target`.
pub fn override_target(target: Boot) -> (r: BootSourceOverrideTarget)
    ensures
        r == override_target_of(target),
{
    match target {
        Boot::Pxe => BootSourceOverrideTarget::Pxe,
        Boot::HardDisk => BootSourceOverrideTarget::Hdd,
        Boot::UefiHttp => BootSourceOverrideTarget::UefiHttp,
    }
}

/// The wire spelling of an `EnabledDisabled` value.
pub open spec fn enabled_disabled_text(v: EnabledDisabled) -> Seq<char> {
    match v {
        EnabledDisabled::Enabled => "Enabled"@,
        EnabledDisabled::Disabled => "Disabled"@,
    }
}

/// The wire spelling of an `EnabledDisabled` value.
pub fn enabled_disabled_str(v: EnabledDisabled) -> (r: &'static str)
    ensures
        r@ == enabled_disabled_text(v),
{
    match v {
        EnabledDisabled::Enabled => "Enabled",
        EnabledDisabled::Disabled => "Disabled",
    }
}

/// The BIOS attributes that lockdown writes for `target`: `KcsInterfaceDisable`
/// (`Deny All` shuts the host's KCS interface, `Allow All` opens it) and `RedfishEnable`.
pub open spec fn lockdown_attributes(target: EnabledDisabled) -> Seq<AttributeView> {
    match target {
        EnabledDisabled::Enabled => seq![
            AttributeView { name: "KcsInterfaceDisable"@, value: ValueView::Text("Deny All"@) },
            AttributeView { name: "RedfishEnable"@, value: ValueView::Text("Disabled"@) },
        ],
        EnabledDisabled::Disabled => seq![
            AttributeView { name: "KcsInterfaceDisable"@, value: ValueView::Text("Allow All"@) },
            AttributeView { name: "RedfishEnable"@, value: ValueView::Text("Enabled"@) },
        ],
    }
}

/// Where the lockdown attributes stand: enabled when KCS is denied and Redfish is off,
/// disabled when KCS is allowed and Redfish is on, partial otherwise.
pub open spec fn lockdown_state(kcs: Seq<char>, redfish: EnabledDisabled) -> StatusInternal {
    if kcs == "Deny All"@ && redfish == EnabledDisabled::Disabled {
        StatusInternal::Enabled
    } else if kcs == "Allow All"@ && redfish == EnabledDisabled::Enabled {
        StatusInternal::Disabled
    } else {
        StatusInternal::Partial
    }
}

/// The standard backend: which system and manager of the BMC it speaks for.
#[derive(Clone, Debug)]
pub struct RedfishStandard {
    pub system_id: String,
    pub manager_id: String,
}

impl RedfishStandard {
    /// A backend for system `system_id` and manager `manager_id`.
    pub fn new(system_id: &str, manager_id: &str) -> (r: RedfishStandard)
        ensures
            r.system_id@ == system_id@,
            r.manager_id@ == manager_id@,
    {
        RedfishStandard { system_id: String::from_str(system_id), manager_id: String::from_str(manager_id) }
    }

    /// The id of the system this backend manages.
    pub fn system_id(&self) -> (r: &str)
        ensures
            r@ == self.system_id@,
    {
        self.system_id.as_str()
    }

    /// `Systems/{id}`.
    pub open spec fn system_url(&self) -> Seq<char> {
        "Systems/"@ + self.system_id@
    }

    pub open spec fn spec_get_system(&self) -> RequestView {
        RequestView { method: Method::Get, url: self.system_url(), body: BodyView::Empty }
    }

    /// Read the ComputerSystem (its boot order, power state).
    pub fn get_system(&self) -> (r: Request)
        ensures
            r@ == self.spec_get_system(),
    {
        Request::get(cat2("Systems/", self.system_id()))
    }

    /// Read the power state: the ComputerSystem carries it.
    pub fn get_power_state(&self) -> (r: Request)
        ensures
            r@ == self.spec_get_system(),
    {
        self.get_system()
    }

    pub open spec fn spec_power(&self, action: SystemPowerControl) -> RequestView {
        RequestView {
            method: Method::Post,
            url: self.system_url() + "/Actions/ComputerSystem.Reset"@,
            body: BodyView::Reset(action),
        }
    }

    /// Change the power state: a Reset action on the system.
    pub fn power(&self, action: SystemPowerControl) -> (r: Request)
        ensures
            r@ == self.spec_power(action),
    {
        Request::post(cat3("Systems/", self.system_id(), "/Actions/ComputerSystem.Reset"), Body::Reset(action))
    }

    pub open spec fn spec_boot_once(&self, target: Boot) -> RequestView {
        RequestView {
            method: Method::Patch,
            url: self.system_url(),
            body: BodyView::BootOverride {
                enabled: BootSourceOverrideEnabled::Once,
                target: override_target_of(target),
            },
        }
    }

    /// Boot once from `target`; the persistent order stays as it is.
    pub fn boot_once(&self, target: Boot) -> (r: Request)
        ensures
            r@ == self.spec_boot_once(target),
    {
        let body = Body::BootOverride { enabled: BootSourceOverrideEnabled::Once, target: override_target(target) };
        Request::patch(cat2("Systems/", self.system_id()), body)
    }

    pub open spec fn spec_get_boot_option(&self, option_id: Seq<char>) -> RequestView {
        RequestView {
            method: Method::Get,
            url: self.system_url() + "/BootOptions/"@ + option_id,
            body: BodyView::Empty,
        }
    }

    /// Read one boot option.
    pub fn get_boot_option(&self, option_id: &str) -> (r: Request)
        ensures
            r@ == self.spec_get_boot_option(option_id@),
    {
        Request::get(cat4("Systems/", self.system_id(), "/BootOptions/", option_id))
    }

    pub open spec fn spec_get_task(&self, id: Seq<char>) -> RequestView {
        RequestView { method: Method::Get, url: "TaskService/Tasks/"@ + id, body: BodyView::Empty }
    }

    /// Read a task.
    pub fn get_task(&self, id: &str) -> (r: Request)
        ensures
            r@ == self.spec_get_task(id@),
    {
        Request::get(cat2("TaskService/Tasks/", id))
    }

    pub open spec fn spec_get_chassis(&self, id: Seq<char>) -> RequestView {
        RequestView { method: Method::Get, url: "Chassis/"@ + id, body: BodyView::Empty }
    }

    /// Read one chassis.
    pub fn get_chassis(&self, id: &str) -> (r: Request)
        ensures
            r@ == self.spec_get_chassis(id@),
    {
        Request::get(cat2("Chassis/", id))
    }

    pub open spec fn spec_get_chassis_all(&self) -> RequestView {
        RequestView { method: Method::Get, url: "Chassis"@, body: BodyView::Empty }
    }

    /// Read the chassis collection.
    pub fn get_chassis_all(&self) -> (r: Request)
        ensures
            r@ == self.spec_get_chassis_all(),
    {
        Request::get(String::from_str("Chassis"))
    }

    pub open spec fn spec_get_secure_boot(&self) -> RequestView {
        RequestView { method: Method::Get, url: self.system_url() + "/SecureBoot"@, body: BodyView::Empty }
    }

    /// Read the SecureBoot resource.
    pub fn get_secure_boot(&self) -> (r: Request)
        ensures
            r@ == self.spec_get_secure_boot(),
    {
        Request::get(cat3("Systems/", self.system_id(), "/SecureBoot"))
    }

    pub open spec fn spec_set_secure_boot(&self, enable: bool) -> RequestView {
        RequestView {
            method: Method::Patch,
            url: self.system_url() + "/SecureBoot"@,
            body: BodyView::Properties(
                seq![AttributeView { name: "SecureBootEnable"@, value: ValueView::Flag(enable) }],
            ),
        }
    }

    /// Turn secure boot on or off (takes effect on the next reboot).
    pub fn set_secure_boot(&self, enable: bool) -> (r: Request)
        ensures
            r@ == self.spec_set_secure_boot(enable),
    {
        let a = flag_attribute("SecureBootEnable", enable);
        let v = vec![a];
        assert(attributes_view(v@) =~= seq![a@]);
        Request::patch(cat3("Systems/", self.system_id(), "/SecureBoot"), Body::Properties(v))
    }

    /// Turn secure boot on.
    pub fn enable_secure_boot(&self) -> (r: Request)
        ensures
            r@ == self.spec_set_secure_boot(true),
    {
        self.set_secure_boot(true)
    }

    /// Turn secure boot off.
    pub fn disable_secure_boot(&self) -> (r: Request)
        ensures
            r@ == self.spec_set_secure_boot(false),
    {
        self.set_secure_boot(false)
    }

    pub open spec fn spec_get_update_service(&self) -> RequestView {
        RequestView { method: Method::Get, url: "UpdateService"@, body: BodyView::Empty }
    }

    /// Read the UpdateService.
    pub fn get_update_service(&self) -> (r: Request)
        ensures
            r@ == self.spec_get_update_service(),
    {
        Request::get(String::from_str("UpdateService"))
    }

    /// `Systems/{id}/Bios/Settings`, where BIOS changes are staged for the next reset.
    pub open spec fn bios_settings_url(&self) -> Seq<char> {
        self.system_url() + "/Bios/Settings"@
    }

    pub open spec fn spec_lockdown(&self, target: EnabledDisabled) -> RequestView {
        RequestView {
            method: Method::Patch,
            url: self.bios_settings_url(),
            body: BodyView::Attributes(lockdown_attributes(target)),
        }
    }

    /// Lock the host down for tenant use (KCS denied, Redfish from the host off), or
    /// undo it. The attributes are staged; they apply on the next reboot.
    pub fn lockdown(&self, target: EnabledDisabled) -> (r: Request)
        ensures
            r@ == self.spec_lockdown(target),
    {
        let (kcs, redfish) = match target {
            EnabledDisabled::Enabled => ("Deny All", "Disabled"),
            EnabledDisabled::Disabled => ("Allow All", "Enabled"),
        };
        let a = text_attribute("KcsInterfaceDisable", kcs);
        let b = text_attribute("RedfishEnable", redfish);
        let v = vec![a, b];
        assert(attributes_view(v@) =~= lockdown_attributes(target));
        Request::patch(cat3("Systems/", self.system_id(), "/Bios/Settings"), Body::Attributes(v))
    }

    pub open spec fn spec_get_bios(&self) -> RequestView {
        RequestView { method: Method::Get, url: self.system_url() + "/Bios"@, body: BodyView::Empty }
    }

    /// Read the BIOS attributes (also what lockdown status is read from).
    pub fn bios(&self) -> (r: Request)
        ensures
            r@ == self.spec_get_bios(),
    {
        Request::get(cat3("Systems/", self.system_id(), "/Bios"))
    }

    pub open spec fn spec_pending(&self) -> RequestView {
        RequestView { method: Method::Get, url: self.bios_settings_url(), body: BodyView::Empty }
    }

    /// Read the staged BIOS attributes that wait for a reboot.
    pub fn pending(&self) -> (r: Request)
        ensures
            r@ == self.spec_pending(),
    {
        Request::get(cat3("Systems/", self.system_id(), "/Bios/Settings"))
    }

    /// Lockdown status read from the BIOS attributes; the message names both parts.
    pub fn lockdown_status(&self, attrs: &BiosLockdownAttributes) -> (r: Status)
        ensures
            r.status == lockdown_state(attrs.kcs_interface_disable@, attrs.redfish_enable),
            r.message@ == "kcs_interface_disable="@ + attrs.kcs_interface_disable@
                + ", redfish_enable="@ + enabled_disabled_text(attrs.redfish_enable),
    {
        let kcs = attrs.kcs_interface_disable.as_str();
        let status = if str_eq(kcs, "Deny All") && attrs.redfish_enable == EnabledDisabled::Disabled {
            StatusInternal::Enabled
        } else if str_eq(kcs, "Allow All") && attrs.redfish_enable == EnabledDisabled::Enabled {
            StatusInternal::Disabled
        } else {
            StatusInternal::Partial
        };
        let message = cat4(
            "kcs_interface_disable=",
            kcs,
            ", redfish_enable=",
            enabled_disabled_str(attrs.redfish_enable),
        );
        Status { status, message }
    }

    pub open spec fn spec_change_bios_password(
        &self,
        name: Seq<char>,
        current: Seq<char>,
        new: Seq<char>,
    ) -> RequestView {
        RequestView {
            method: Method::Post,
            url: self.system_url() + "/Bios/Actions/Bios.ChangePassword"@,
            body: BodyView::Properties(
                seq![
                    AttributeView { name: "PasswordName"@, value: ValueView::Text(name) },
                    AttributeView { name: "OldPassword"@, value: ValueView::Text(current) },
                    AttributeView { name: "NewPassword"@, value: ValueView::Text(new) },
                ],
            ),
        }
    }

    /// Change the BIOS password called `name` from `current` to `new`.
    pub fn change_bios_password(&self, name: &str, current: &str, new: &str) -> (r: Request)
        ensures
            r@ == self.spec_change_bios_password(name@, current@, new@),
    {
        let v = vec![
            text_attribute("PasswordName", name),
            text_attribute("OldPassword", current),
            text_attribute("NewPassword", new),
        ];
        assert(attributes_view(v@) =~= seq![v@[0]@, v@[1]@, v@[2]@]);
        Request::post(cat3("Systems/", self.system_id(), "/Bios/Actions/Bios.ChangePassword"), Body::Properties(v))
    }

    pub open spec fn spec_bmc_reset(&self) -> RequestView {
        RequestView {
            method: Method::Post,
            url: "Managers/"@ + self.manager_id@ + "/Actions/Manager.Reset"@,
            body: BodyView::Reset(SystemPowerControl::GracefulRestart),
        }
    }

    /// Restart the BMC.
    pub fn bmc_reset(&self) -> (r: Request)
        ensures
            r@ == self.spec_bmc_reset(),
    {
        Request::post(
            cat3("Managers/", self.manager_id.as_str(), "/Actions/Manager.Reset"),
            Body::Reset(SystemPowerControl::GracefulRestart),
        )
    }

    pub open spec fn spec_chassis_reset(&self, chassis_id: Seq<char>, reset_type: SystemPowerControl) -> RequestView {
        RequestView {
            method: Method::Post,
            url: "Chassis/"@ + chassis_id + "/Actions/Chassis.Reset"@,
            body: BodyView::Reset(reset_type),
        }
    }

    /// A power action on one chassis.
    pub fn chassis_reset(&self, chassis_id: &str, reset_type: SystemPowerControl) -> (r: Request)
        ensures
            r@ == self.spec_chassis_reset(chassis_id@, reset_type),
    {
        Request::post(cat3("Chassis/", chassis_id, "/Actions/Chassis.Reset"), Body::Reset(reset_type))
    }

    pub open spec fn spec_get_manager(&self) -> RequestView {
        RequestView { method: Method::Get, url: "Managers/"@ + self.manager_id@, body: BodyView::Empty }
    }

    /// Read the manager (the BMC itself).
    pub fn get_manager(&self) -> (r: Request)
        ensures
            r@ == self.spec_get_manager(),
    {
        Request::get(cat2("Managers/", self.manager_id.as_str()))
    }
}

impl RedfishStandard {
    pub open spec fn spec_change_boot_order(&self, ids: Seq<Seq<char>>) -> RequestView {
        RequestView { method: Method::Patch, url: self.system_url() + "/Settings"@, body: BodyView::BootOrder(ids) }
    }

    /// Make `boot_array` the persistent boot order, staged on the system's Settings.
    pub fn change_boot_order(&self, boot_array: Vec<String>) -> (r: Request)
        ensures
            r@ == self.spec_change_boot_order(strings_view(boot_array@)),
    {
        Request::patch(cat3("Systems/", self.system_id(), "/Settings"), Body::BootOrder(boot_array))
    }

    /// The new order with the option found by `field` and `name` first, or the error.
    pub open spec fn spec_first_by(&self, opts: Seq<BootOption>, field: BootOptionMatchField, name: Seq<char>) -> Result<RequestView, ErrorView> {
        match reorder_result(opts, field, name) {
            Ok(ids) => Ok(self.spec_change_boot_order(ids)),
            Err(e) => Err(e),
        }
    }

    /// Put the first option whose `field` begins with `name` first in the boot order.
    /// `options` are the system's boot options in its current BootOrder.
    pub fn boot_first_by(&self, options: &Vec<BootOption>, field: BootOptionMatchField, name: &str) -> (r: Result<Request, RedfishError>)
        ensures
            result_view(r) == self.spec_first_by(options@, field, name@),
    {
        match boot_order_with_first(options, field, name) {
            Ok(ids) => Ok(self.change_boot_order(ids)),
            Err(e) => Err(e),
        }
    }
}

impl RedfishStandard {
    pub open spec fn spec_get_system_ethernet_interfaces(&self) -> RequestView {
        RequestView { method: Method::Get, url: self.system_url() + "/EthernetInterfaces"@, body: BodyView::Empty }
    }

    /// Read the system's EthernetInterfaces collection.
    pub fn get_system_ethernet_interfaces(&self) -> (r: Request)
        ensures
            r@ == self.spec_get_system_ethernet_interfaces(),
    {
        Request::get(cat3("Systems/", self.system_id(), "/EthernetInterfaces"))
    }

    pub open spec fn spec_get_system_ethernet_interface(&self, id: Seq<char>) -> RequestView {
        RequestView {
            method: Method::Get,
            url: self.spec_get_system_ethernet_interfaces().url + "/"@ + id,
            body: BodyView::Empty,
        }
    }

    /// Read one of the system's EthernetInterfaces.
    pub fn get_system_ethernet_interface(&self, id: &str) -> (r: Request)
        ensures
            r@ == self.spec_get_system_ethernet_interface(id@),
    {
        let all = cat3("Systems/", self.system_id(), "/EthernetInterfaces");
        Request::get(cat3(all.as_str(), "/", id))
    }
}

/// The BIOS attributes staged on a BMC after `a` is written over `m`, one by one.
pub open spec fn apply_attributes(m: Map<Seq<char>, ValueView>, a: Seq<AttributeView>) -> Map<Seq<char>, ValueView>
    decreases a.len(),
{
    if a.len() == 0 {
        m
    } else {
        apply_attributes(m, a.drop_last()).insert(a.last().name, a.last().value)
    }
}

/// The staged BIOS attributes after request `r`: a PATCH of attributes writes them,
/// anything else leaves them.
pub open spec fn apply_request(m: Map<Seq<char>, ValueView>, r: RequestView) -> Map<Seq<char>, ValueView> {
    match r.body {
        BodyView::Attributes(a) => if r.method == Method::Patch {
            apply_attributes(m, a)
        } else {
            m
        },
        _ => m,
    }
}

proof fn lemma_apply_is_union(m: Map<Seq<char>, ValueView>, a: Seq<AttributeView>)
    ensures
        apply_attributes(m, a) == m.union_prefer_right(apply_attributes(Map::empty(), a)),
    decreases a.len(),
{
    if a.len() > 0 {
        lemma_apply_is_union(m, a.drop_last());
        assert(apply_attributes(m, a) =~= m.union_prefer_right(apply_attributes(Map::empty(), a)));
    } else {
        assert(apply_attributes(m, a) =~= m.union_prefer_right(apply_attributes(Map::empty(), a)));
    }
}

/// Writing the same attributes twice leaves what writing them once leaves.
pub proof fn lemma_attributes_idempotent(m: Map<Seq<char>, ValueView>, a: Seq<AttributeView>)
    ensures
        apply_attributes(apply_attributes(m, a), a) == apply_attributes(m, a),
{
    let l = apply_attributes(Map::empty(), a);
    lemma_apply_is_union(m, a);
    lemma_apply_is_union(apply_attributes(m, a), a);
    assert(m.union_prefer_right(l).union_prefer_right(l) =~= m.union_prefer_right(l));
}

/// Lockdown is idempotent: applying `lockdown(target)` twice leaves the BMC's staged
/// BIOS attributes as applying it once does, for either target and any prior state.
pub proof fn lemma_lockdown_idempotent(s: RedfishStandard, target: EnabledDisabled, m: Map<Seq<char>, ValueView>)
    ensures
        apply_request(apply_request(m, s.spec_lockdown(target)), s.spec_lockdown(target)) == apply_request(
            m,
            s.spec_lockdown(target),
        ),
{
    lemma_attributes_idempotent(m, lockdown_attributes(target));
}

/// After `lockdown(target)` the staged attributes read as `target` whatever they were:
/// KCS and Redfish hold the values that `lockdown_state` reads as that target.
pub proof fn lemma_lockdown_reaches_target(s: RedfishStandard, target: EnabledDisabled, m: Map<Seq<char>, ValueView>)
    ensures
        ({
            let after = apply_request(m, s.spec_lockdown(target));
            let kcs = if target == EnabledDisabled::Enabled { "Deny All"@ } else { "Allow All"@ };
            let redfish = if target == EnabledDisabled::Enabled { EnabledDisabled::Disabled } else { EnabledDisabled::Enabled };
            &&& after["KcsInterfaceDisable"@] == ValueView::Text(kcs)
            &&& after["RedfishEnable"@] == ValueView::Text(enabled_disabled_text(redfish))
            &&& lockdown_state(kcs, redfish) == (if target == EnabledDisabled::Enabled {
                StatusInternal::Enabled
            } else {
                StatusInternal::Disabled
            })
        }),
{
    let a = lockdown_attributes(target);
    reveal_strlit("KcsInterfaceDisable");
    reveal_strlit("RedfishEnable");
    reveal_strlit("Deny All");
    reveal_strlit("Allow All");
    assert("KcsInterfaceDisable"@ != "RedfishEnable"@) by {
        assert("KcsInterfaceDisable"@[0] != "RedfishEnable"@[0]);
    }
    assert("Deny All"@ != "Allow All"@) by {
        assert("Deny All"@[0] != "Allow All"@[0]);
    }
    assert(a.len() == 2);
    assert(a.drop_last().drop_last() =~= Seq::<AttributeView>::empty());
    assert(a.drop_last().last() == a[0]);
    let m1 = apply_attributes(m, a.drop_last());
    assert(m1 == apply_attributes(m, a.drop_last().drop_last()).insert(a[0].name, a[0].value));
    assert(m1 == m.insert(a[0].name, a[0].value));
    assert(apply_attributes(m, a) == m1.insert(a[1].name, a[1].value));
}

impl RedfishStandard {
    pub open spec fn spec_update_firmware_simple_update(
        &self,
        image_uri: Seq<char>,
        targets: Seq<Seq<char>>,
        transfer_protocol: TransferProtocolType,
    ) -> RequestView {
        RequestView {
            method: Method::Post,
            url: "UpdateService/Actions/UpdateService.SimpleUpdate"@,
            body: BodyView::SimpleUpdate { image_uri, targets, transfer_protocol },
        }
    }

    /// Have the BMC fetch and apply the image at `image_uri` for `targets`.
    pub fn update_firmware_simple_update(
        &self,
        image_uri: &str,
        targets: Vec<String>,
        transfer_protocol: TransferProtocolType,
    ) -> (r: Request)
        ensures
            r@ == self.spec_update_firmware_simple_update(image_uri@, strings_view(targets@), transfer_protocol),
    {
        let body = Body::SimpleUpdate { image_uri: String::from_str(image_uri), targets, transfer_protocol };
        Request::post(String::from_str("UpdateService/Actions/UpdateService.SimpleUpdate"), body)
    }
}

/// The wire spelling of a role.
pub open spec fn role_text(r: RoleId) -> Seq<char> {
    match r {
        RoleId::Administrator => "Administrator"@,
        RoleId::Operator => "Operator"@,
        RoleId::ReadOnly => "ReadOnly"@,
        RoleId::NoAccess => "NoAccess"@,
    }
}

/// The wire spelling of a role.
pub fn role_str(r: RoleId) -> (s: &'static str)
    ensures
        s@ == role_text(r),
{
    match r {
        RoleId::Administrator => "Administrator",
        RoleId::Operator => "Operator",
        RoleId::ReadOnly => "ReadOnly",
        RoleId::NoAccess => "NoAccess",
    }
}

/// The position of the first account called `user`, if any.
pub open spec fn find_account(accounts: Seq<ManagerAccount>, user: Seq<char>) -> Option<int>
    decreases accounts.len(),
{
    if accounts.len() == 0 {
        None
    } else {
        match find_account(accounts.drop_last(), user) {
            Some(i) => Some(i),
            None => if accounts.last().username@ == user {
                Some(accounts.len() - 1)
            } else {
                None
            },
        }
    }
}

proof fn lemma_find_account(accounts: Seq<ManagerAccount>, user: Seq<char>, n: int)
    requires
        0 <= n < accounts.len(),
        forall|j: int| 0 <= j < n ==> (#[trigger] accounts[j]).username@ != user,
        accounts[n].username@ == user,
    ensures
        find_account(accounts, user) == Some(n),
    decreases accounts.len(),
{
    if n < accounts.len() - 1 {
        lemma_find_account(accounts.drop_last(), user, n);
    } else {
        lemma_find_none(accounts.drop_last(), user);
    }
}

proof fn lemma_find_none(accounts: Seq<ManagerAccount>, user: Seq<char>)
    requires
        forall|j: int| 0 <= j < accounts.len() ==> (#[trigger] accounts[j]).username@ != user,
    ensures
        find_account(accounts, user) is None,
    decreases accounts.len(),
{
    if accounts.len() > 0 {
        lemma_find_none(accounts.drop_last(), user);
    }
}

/// The message of the error for an unknown user name.
pub open spec fn no_user_message(user: Seq<char>) -> Seq<char> {
    "No account named "@ + user
}

/// The id of the first account called `user`, or `NotFound`.
pub fn account_id_for(accounts: &Vec<ManagerAccount>, user: &str) -> (r: Result<String, RedfishError>)
    ensures
        match find_account(accounts@, user@) {
            Some(i) => r is Ok && r->Ok_0@ == accounts@[i].id@,
            None => r is Err && r->Err_0@ == ErrorView::NotFound(no_user_message(user@)),
        },
{
    let n = accounts.len();
    let mut i: usize = 0;
    while i < n
        invariant
            n == accounts@.len(),
            i <= n,
            forall|j: int| 0 <= j < i ==> (#[trigger] accounts@[j]).username@ != user@,
        decreases n - i,
    {
        if str_eq(accounts[i].username.as_str(), user) {
            proof {
                lemma_find_account(accounts@, user@, i as int);
            }
            return Ok(accounts[i].id.clone());
        }
        i = i + 1;
    }
    proof {
        lemma_find_none(accounts@, user@);
    }
    Err(RedfishError::NotFound(cat2("No account named ", user)))
}

impl RedfishStandard {
    pub open spec fn spec_get_accounts(&self) -> RequestView {
        RequestView { method: Method::Get, url: "AccountService/Accounts"@, body: BodyView::Empty }
    }

    /// Read the accounts collection.
    pub fn get_accounts(&self) -> (r: Request)
        ensures
            r@ == self.spec_get_accounts(),
    {
        Request::get(String::from_str("AccountService/Accounts"))
    }

    pub open spec fn spec_create_user(&self, username: Seq<char>, password: Seq<char>, role: RoleId) -> RequestView {
        RequestView {
            method: Method::Post,
            url: "AccountService/Accounts"@,
            body: BodyView::Properties(
                seq![
                    AttributeView { name: "UserName"@, value: ValueView::Text(username) },
                    AttributeView { name: "Password"@, value: ValueView::Text(password) },
                    AttributeView { name: "RoleId"@, value: ValueView::Text(role_text(role)) },
                ],
            ),
        }
    }

    /// Create an account.
    pub fn create_user(&self, username: &str, password: &str, role_id: RoleId) -> (r: Request)
        ensures
            r@ == self.spec_create_user(username@, password@, role_id),
    {
        let v = vec![
            text_attribute("UserName", username),
            text_attribute("Password", password),
            text_attribute("RoleId", role_str(role_id)),
        ];
        assert(attributes_view(v@) =~= seq![v@[0]@, v@[1]@, v@[2]@]);
        Request::post(String::from_str("AccountService/Accounts"), Body::Properties(v))
    }

    pub open spec fn spec_patch_account(&self, account_id: Seq<char>, field: Seq<char>, value: Seq<char>) -> RequestView {
        RequestView {
            method: Method::Patch,
            url: "AccountService/Accounts/"@ + account_id,
            body: BodyView::Properties(seq![AttributeView { name: field, value: ValueView::Text(value) }]),
        }
    }

    /// Set the password of the account with id `account_id`.
    pub fn change_password_by_id(&self, account_id: &str, new_pass: &str) -> (r: Request)
        ensures
            r@ == self.spec_patch_account(account_id@, "Password"@, new_pass@),
    {
        let v = vec![text_attribute("Password", new_pass)];
        assert(attributes_view(v@) =~= seq![v@[0]@]);
        Request::patch(cat2("AccountService/Accounts/", account_id), Body::Properties(v))
    }

    /// Set the password of the account called `user`, found among `accounts`.
    pub fn change_password(&self, accounts: &Vec<ManagerAccount>, user: &str, new: &str) -> (r: Result<Request, RedfishError>)
        ensures
            match find_account(accounts@, user@) {
                Some(i) => r is Ok && r->Ok_0@ == self.spec_patch_account(accounts@[i].id@, "Password"@, new@),
                None => r is Err && r->Err_0@ == ErrorView::NotFound(no_user_message(user@)),
            },
    {
        match account_id_for(accounts, user) {
            Ok(id) => Ok(self.change_password_by_id(id.as_str(), new)),
            Err(e) => Err(e),
        }
    }

    /// Rename the account called `old_name`, found among `accounts`, to `new_name`.
    pub fn change_username(&self, accounts: &Vec<ManagerAccount>, old_name: &str, new_name: &str) -> (r: Result<Request, RedfishError>)
        ensures
            match find_account(accounts@, old_name@) {
                Some(i) => r is Ok && r->Ok_0@ == self.spec_patch_account(accounts@[i].id@, "UserName"@, new_name@),
                None => r is Err && r->Err_0@ == ErrorView::NotFound(no_user_message(old_name@)),
            },
    {
        match account_id_for(accounts, old_name) {
            Ok(id) => {
                let v = vec![text_attribute("UserName", new_name)];
                assert(attributes_view(v@) =~= seq![v@[0]@]);
                Ok(Request::patch(cat2("AccountService/Accounts/", id.as_str()), Body::Properties(v)))
            },
            Err(e) => Err(e),
        }
    }

    pub open spec fn spec_get_tasks(&self) -> RequestView {
        RequestView { method: Method::Get, url: "TaskService/Tasks"@, body: BodyView::Empty }
    }

    /// Read the tasks collection.
    pub fn get_tasks(&self) -> (r: Request)
        ensures
            r@ == self.spec_get_tasks(),
    {
        Request::get(String::from_str("TaskService/Tasks"))
    }

    pub open spec fn spec_get_software_inventories(&self) -> RequestView {
        RequestView { method: Method::Get, url: "UpdateService/FirmwareInventory"@, body: BodyView::Empty }
    }

    /// Read the firmware inventory collection.
    pub fn get_software_inventories(&self) -> (r: Request)
        ensures
            r@ == self.spec_get_software_inventories(),
    {
        Request::get(String::from_str("UpdateService/FirmwareInventory"))
    }

    pub open spec fn spec_get_firmware(&self, id: Seq<char>) -> RequestView {
        RequestView { method: Method::Get, url: "UpdateService/FirmwareInventory/"@ + id, body: BodyView::Empty }
    }

    /// Read one firmware inventory entry.
    pub fn get_firmware(&self, id: &str) -> (r: Request)
        ensures
            r@ == self.spec_get_firmware(id@),
    {
        Request::get(cat2("UpdateService/FirmwareInventory/", id))
    }
}

impl RedfishStandard {
    pub open spec fn spec_get_service_root(&self) -> RequestView {
        RequestView { method: Method::Get, url: Seq::empty(), body: BodyView::Empty }
    }

    /// Read the service root: `/redfish/v1/` itself, the empty relative URL.
    pub fn get_service_root(&self) -> (r: Request)
        ensures
            r@ == self.spec_get_service_root(),
    {
        Request::get(String::new())
    }

    pub open spec fn spec_get_systems(&self) -> RequestView {
        RequestView { method: Method::Get, url: "Systems"@, body: BodyView::Empty }
    }

    /// Read the systems collection.
    pub fn get_systems(&self) -> (r: Request)
        ensures
            r@ == self.spec_get_systems(),
    {
        Request::get(String::from_str("Systems"))
    }

    pub open spec fn spec_get_managers(&self) -> RequestView {
        RequestView { method: Method::Get, url: "Managers"@, body: BodyView::Empty }
    }

    /// Read the managers collection.
    pub fn get_managers(&self) -> (r: Request)
        ensures
            r@ == self.spec_get_managers(),
    {
        Request::get(String::from_str("Managers"))
    }

    pub open spec fn spec_get_collection(&self, id: Seq<char>) -> RequestView {
        RequestView { method: Method::Get, url: strip_redfish_prefix(id), body: BodyView::Empty }
    }

    /// Read the collection `id` names.
    pub fn get_collection(&self, id: &ODataId) -> (r: Request)
        ensures
            r@ == self.spec_get_collection(id.odata_id@),
    {
        Request::get(relative_url(id.odata_id.as_str()))
    }

    pub open spec fn spec_get_resource(&self, id: Seq<char>) -> RequestView {
        RequestView { method: Method::Get, url: strip_redfish_prefix(id), body: BodyView::Empty }
    }

    /// Read the resource `id` names.
    pub fn get_resource(&self, id: &ODataId) -> (r: Request)
        ensures
            r@ == self.spec_get_resource(id.odata_id@),
    {
        Request::get(relative_url(id.odata_id.as_str()))
    }

    pub open spec fn spec_get_chassis_network_adapters(&self, chassis_id: Seq<char>) -> RequestView {
        RequestView { method: Method::Get, url: "Chassis/"@ + chassis_id + "/NetworkAdapters"@, body: BodyView::Empty }
    }

    /// Read the NetworkAdapters collection of a chassis.
    pub fn get_chassis_network_adapters(&self, chassis_id: &str) -> (r: Request)
        ensures
            r@ == self.spec_get_chassis_network_adapters(chassis_id@),
    {
        Request::get(cat3("Chassis/", chassis_id, "/NetworkAdapters"))
    }

    pub open spec fn spec_get_chassis_network_adapter(&self, chassis_id: Seq<char>, id: Seq<char>) -> RequestView {
        RequestView { method: Method::Get, url: "Chassis/"@ + chassis_id + "/NetworkAdapters/"@ + id, body: BodyView::Empty }
    }

    /// Read one NetworkAdapter of a chassis.
    pub fn get_chassis_network_adapter(&self, chassis_id: &str, id: &str) -> (r: Request)
        ensures
            r@ == self.spec_get_chassis_network_adapter(chassis_id@, id@),
    {
        Request::get(cat4("Chassis/", chassis_id, "/NetworkAdapters/", id))
    }

    pub open spec fn spec_get_base_network_adapters(&self, system_id: Seq<char>) -> RequestView {
        RequestView { method: Method::Get, url: "Systems/"@ + system_id + "/NetworkAdapters"@, body: BodyView::Empty }
    }

    /// Read the NetworkAdapters collection of a system.
    pub fn get_base_network_adapters(&self, system_id: &str) -> (r: Request)
        ensures
            r@ == self.spec_get_base_network_adapters(system_id@),
    {
        Request::get(cat3("Systems/", system_id, "/NetworkAdapters"))
    }

    pub open spec fn spec_get_base_network_adapter(&self, system_id: Seq<char>, id: Seq<char>) -> RequestView {
        RequestView { method: Method::Get, url: "Systems/"@ + system_id + "/NetworkAdapters/"@ + id, body: BodyView::Empty }
    }

    /// Read one NetworkAdapter of a system.
    pub fn get_base_network_adapter(&self, system_id: &str, id: &str) -> (r: Request)
        ensures
            r@ == self.spec_get_base_network_adapter(system_id@, id@),
    {
        Request::get(cat4("Systems/", system_id, "/NetworkAdapters/", id))
    }

    pub open spec fn spec_get_manager_ethernet_interfaces(&self) -> RequestView {
        RequestView { method: Method::Get, url: "Managers/"@ + self.manager_id@ + "/EthernetInterfaces"@, body: BodyView::Empty }
    }

    /// Read the manager's EthernetInterfaces collection.
    pub fn get_manager_ethernet_interfaces(&self) -> (r: Request)
        ensures
            r@ == self.spec_get_manager_ethernet_interfaces(),
    {
        Request::get(cat3("Managers/", self.manager_id.as_str(), "/EthernetInterfaces"))
    }

    pub open spec fn spec_get_manager_ethernet_interface(&self, id: Seq<char>) -> RequestView {
        RequestView { method: Method::Get, url: "Managers/"@ + self.manager_id@ + "/EthernetInterfaces/"@ + id, body: BodyView::Empty }
    }

    /// Read one of the manager's EthernetInterfaces.
    pub fn get_manager_ethernet_interface(&self, id: &str) -> (r: Request)
        ensures
            r@ == self.spec_get_manager_ethernet_interface(id@),
    {
        Request::get(cat4("Managers/", self.manager_id.as_str(), "/EthernetInterfaces/", id))
    }
}

} // verus!
