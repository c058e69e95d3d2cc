//! The backend for NVIDIA GB200 (Bianca) BMCs. Its chassis are a federation (`PDB_0`,
//! `Chassis_0`, `HGX_*`) whose sensors have to be stitched together, and its boot
//! settings are staged on the system's Settings resource.
use vstd::prelude::*;

use crate::boot_order::{boot_order_with_first, reorder_result, BootOptionMatchField};
use crate::error::{not_supported, ErrorView, RedfishError};
use crate::model::boot::BootSourceOverrideEnabled;
use crate::model::system::{BootOption, SecureBoot};
use crate::model::update_service::UpdateService;
use crate::json::{json_parses, json_string_member, string_member};
use crate::url::{relative_url, strip_redfish_prefix};
use crate::request::{
    attributes_view, integer_attribute, result_view, strings_view, AttributeView, Body, BodyView,
    Method, Request, RequestView, ValueView,
};
use crate::standard::{override_target, override_target_of, RedfishStandard};
use crate::text::{remove_char, to_upper, upper_of, without_char};
use crate::url::{cat3, cat4, cat5};
use crate::{Boot, EnabledDisabled, MachineSetupDiff, MachineSetupStatus};

verus! {

/// The name of the BIOS password that guards UEFI setup.
pub const UEFI_PASSWORD_NAME: &'static str = "AdminPassword";

/// What a boot option is recognised by.
#[derive(Clone, Copy, Debug, PartialEq, Eq, Structural)]
pub enum BootOptionName {
    Http,
    Pxe,
    Hdd,
}

/// The text a boot option's field begins with.
pub open spec fn boot_option_label(n: BootOptionName) -> Seq<char> {
    match n {
        BootOptionName::Http => "UEFI HTTPv4"@,
        BootOptionName::Pxe => "UEFI PXEv4"@,
        BootOptionName::Hdd => "HD("@,
    }
}

impl BootOptionName {
    /// The text a boot option's field begins with.
    pub fn to_string(self) -> (r: &'static str)
        ensures
            r@ == boot_option_label(self),
    {
        match self {
            BootOptionName::Http => "UEFI HTTPv4",
            BootOptionName::Pxe => "UEFI PXEv4",
            BootOptionName::Hdd => "HD(",
        }
    }
}

/// How `boot_first` recognises the option for a target: PXE and HTTP by display name,
/// a hard disk by a UEFI device path that starts with a partition (`HD(`).
pub open spec fn boot_first_match(target: Boot) -> (BootOptionMatchField, BootOptionName) {
    match target {
        Boot::Pxe => (BootOptionMatchField::DisplayName, BootOptionName::Pxe),
        Boot::HardDisk => (BootOptionMatchField::UefiDevicePath, BootOptionName::Hdd),
        Boot::UefiHttp => (BootOptionMatchField::DisplayName, BootOptionName::Http),
    }
}

/// The display name of the HTTP boot option of the DPU with MAC address `mac`: the
/// address without colons, in upper case.
pub open spec fn dpu_boot_option_name(mac: Seq<char>) -> Seq<char> {
    "UEFI HTTPv4"@ + " (MAC:"@ + upper_of(without_char(mac, ':')) + ")"@
}

/// The message of the error for setting the DPU first without its MAC address.
pub open spec fn no_mac_message() -> Seq<char> {
    "set_dpu_first_boot_order without mac address is not possible on GB200 since NetworkDeviceFunctions and PCIeDevices are missing"@
}

/// The message of the error for the Systems EthernetInterfaces.
pub open spec fn no_system_ethernet_message() -> Seq<char> {
    "GB200 doesn't have Systems EthernetInterface"@
}

/// The message of the error for NetworkDeviceFunctions.
pub open spec fn no_device_functions_message() -> Seq<char> {
    "GB200 doesn't have Device Functions in NetworkAdapters yet"@
}

/// The message of the error for GPU sensors.
pub open spec fn no_gpu_sensors_message() -> Seq<char> {
    "GB200 has no sensors under Chassis/HGX_GPU_#/Sensors/"@
}

/// The GB200 backend.
#[derive(Clone, Debug)]
pub struct Bmc {
    pub s: RedfishStandard,
}

impl Bmc {
    /// A GB200 backend over the standard one.
    pub fn new(s: RedfishStandard) -> (r: Result<Bmc, RedfishError>)
        ensures
            r is Ok && r->Ok_0.s == s,
    {
        Ok(Bmc { s })
    }

    /// `Systems/{id}/Settings`, where GB200 stages boot changes.
    pub open spec fn settings_url(&self) -> Seq<char> {
        self.s.system_url() + "/Settings"@
    }

    pub open spec fn spec_change_boot_order(&self, ids: Seq<Seq<char>>) -> RequestView {
        RequestView { method: Method::Patch, url: self.settings_url(), body: BodyView::BootOrder(ids) }
    }

    /// Make `boot_array` the persistent boot order.
    pub fn change_boot_order(&self, boot_array: Vec<String>) -> (r: Request)
        ensures
            r@ == self.spec_change_boot_order(strings_view(boot_array@)),
    {
        Request::patch(cat3("Systems/", self.s.system_id(), "/Settings"), Body::BootOrder(boot_array))
    }

    /// The order with the option found by `field` and `name` first, or the error.
    pub open spec fn spec_first_by(&self, opts: Seq<BootOption>, field: BootOptionMatchField, name: Seq<char>) -> Result<RequestView, ErrorView> {
        match reorder_result(opts, field, name) {
            Ok(ids) => Ok(self.spec_change_boot_order(ids)),
            Err(e) => Err(e),
        }
    }

    /// Put the option found by `field` and `name` first.
    fn order_first_by(&self, options: &Vec<BootOption>, field: BootOptionMatchField, name: &str) -> (r: Result<Request, RedfishError>)
        ensures
            result_view(r) == self.spec_first_by(options@, field, name@),
    {
        match boot_order_with_first(options, field, name) {
            Ok(ids) => Ok(self.change_boot_order(ids)),
            Err(e) => Err(e),
        }
    }

    pub open spec fn spec_boot_first(&self, target: Boot, opts: Seq<BootOption>) -> Result<RequestView, ErrorView> {
        let (field, n) = boot_first_match(target);
        self.spec_first_by(opts, field, boot_option_label(n))
    }

    /// Make `target` the first entry of the persistent boot order. `options` are the
    /// system's boot options in its current BootOrder.
    pub fn boot_first(&self, target: Boot, options: &Vec<BootOption>) -> (r: Result<Request, RedfishError>)
        ensures
            result_view(r) == self.spec_boot_first(target, options@),
    {
        match target {
            Boot::Pxe => self.set_boot_order(BootOptionName::Pxe, options),
            Boot::HardDisk => self.order_first_by(
                options,
                BootOptionMatchField::UefiDevicePath,
                BootOptionName::Hdd.to_string(),
            ),
            Boot::UefiHttp => self.set_boot_order(BootOptionName::Http, options),
        }
    }

    /// Put the option whose display name begins with `name`'s text first.
    pub fn set_boot_order(&self, name: BootOptionName, options: &Vec<BootOption>) -> (r: Result<Request, RedfishError>)
        ensures
            result_view(r) == self.spec_first_by(options@, BootOptionMatchField::DisplayName, boot_option_label(name)),
    {
        self.order_first_by(options, BootOptionMatchField::DisplayName, name.to_string())
    }

    pub open spec fn spec_set_boot_override(
        &self,
        target: crate::model::boot::BootSourceOverrideTarget,
        enabled: BootSourceOverrideEnabled,
    ) -> RequestView {
        RequestView {
            method: Method::Patch,
            url: self.settings_url(),
            body: BodyView::BootOverride { enabled, target },
        }
    }

    /// Stage a boot override.
    pub fn set_boot_override(
        &self,
        override_target: crate::model::boot::BootSourceOverrideTarget,
        override_enabled: BootSourceOverrideEnabled,
    ) -> (r: Request)
        ensures
            r@ == self.spec_set_boot_override(override_target, override_enabled),
    {
        let body = Body::BootOverride { enabled: override_enabled, target: override_target };
        Request::patch(cat3("Systems/", self.s.system_id(), "/Settings"), body)
    }

    /// Boot once from `target`. HTTP is sent as asked even where the BMC does not list
    /// it among the allowed values.
    pub fn boot_once(&self, target: Boot) -> (r: Request)
        ensures
            r@ == self.spec_set_boot_override(override_target_of(target), BootSourceOverrideEnabled::Once),
    {
        self.set_boot_override(override_target(target), BootSourceOverrideEnabled::Once)
    }

    pub open spec fn spec_set_boot_order_dpu_first(&self, address: Option<Seq<char>>, opts: Seq<BootOption>) -> Result<RequestView, ErrorView> {
        match address {
            None => Err(ErrorView::NotSupported(no_mac_message())),
            Some(mac) => self.spec_first_by(opts, BootOptionMatchField::DisplayName, dpu_boot_option_name(mac)),
        }
    }

    /// Put the HTTP boot option of the DPU with MAC `address` first. GB200 cannot find
    /// the DPU without its address.
    pub fn set_boot_order_dpu_first(&self, address: Option<&str>, options: &Vec<BootOption>) -> (r: Result<Request, RedfishError>)
        ensures
            result_view(r) == self.spec_set_boot_order_dpu_first(
                match address { Some(a) => Some(a@), None => None },
                options@,
            ),
    {
        match address {
            None => {
                let msg = "set_dpu_first_boot_order without mac address is not possible on GB200 since NetworkDeviceFunctions and PCIeDevices are missing";
                Err(not_supported(msg))
            },
            Some(x) => {
                let bare = remove_char(x, ':');
                let mac = to_upper(bare.as_str());
                let name = cat4(BootOptionName::Http.to_string(), " (MAC:", mac.as_str(), ")");
                self.order_first_by(options, BootOptionMatchField::DisplayName, name.as_str())
            },
        }
    }

    /// Machine setup: secure boot off, then the DPU's HTTP boot option first. The first
    /// request is always sent; the second, or the error, follows.
    pub fn machine_setup(&self, boot_interface_mac: Option<&str>, options: &Vec<BootOption>) -> (r: (Request, Result<Request, RedfishError>))
        ensures
            r.0@ == self.s.spec_set_secure_boot(false),
            result_view(r.1) == self.spec_set_boot_order_dpu_first(
                match boot_interface_mac { Some(a) => Some(a@), None => None },
                options@,
            ),
    {
        let first = self.s.disable_secure_boot();
        (first, self.set_boot_order_dpu_first(boot_interface_mac, options))
    }

    /// What differs from machine setup: secure boot that is on.
    pub fn machine_setup_status(&self, sb: &SecureBoot) -> (r: MachineSetupStatus)
        ensures
            sb.secure_boot_enable == Some(true) ==> r.diffs@.len() == 1
                && r.diffs@[0].key@ == "SecureBoot"@
                && r.diffs@[0].expected@ == "false"@
                && r.diffs@[0].actual@ == "true"@,
            sb.secure_boot_enable != Some(true) ==> r.diffs@.len() == 0,
            r.is_done == (r.diffs@.len() == 0),
    {
        let mut diffs: Vec<MachineSetupDiff> = Vec::new();
        let on = match sb.secure_boot_enable {
            Some(b) => b,
            None => false,
        };
        if on {
            diffs.push(MachineSetupDiff {
                key: String::from_str("SecureBoot"),
                expected: String::from_str("false"),
                actual: String::from_str("true"),
            });
        }
        let is_done = diffs.len() == 0;
        MachineSetupStatus { is_done, diffs }
    }

    pub open spec fn spec_set_machine_password_policy(&self) -> RequestView {
        RequestView {
            method: Method::Patch,
            url: "AccountService"@,
            body: BodyView::Properties(
                seq![
                    AttributeView { name: "AccountLockoutThreshold"@, value: ValueView::Integer(0) },
                    AttributeView { name: "AccountLockoutDuration"@, value: ValueView::Integer(600) },
                ],
            ),
        }
    }

    /// Accounts never lock; the lockout duration is the smallest the BMC accepts (600 s).
    pub fn set_machine_password_policy(&self) -> (r: Request)
        ensures
            r@ == self.spec_set_machine_password_policy(),
    {
        let v = vec![
            integer_attribute("AccountLockoutThreshold", 0),
            integer_attribute("AccountLockoutDuration", 600),
        ];
        assert(attributes_view(v@) =~= seq![v@[0]@, v@[1]@]);
        Request::patch(String::from_str("AccountService"), Body::Properties(v))
    }

    /// Change the UEFI password. An empty `current` means none is set yet; an empty
    /// `new` removes it.
    pub fn change_uefi_password(&self, current_uefi_password: &str, new_uefi_password: &str) -> (r: Request)
        ensures
            r@ == self.s.spec_change_bios_password(UEFI_PASSWORD_NAME@, current_uefi_password@, new_uefi_password@),
    {
        self.s.change_bios_password(UEFI_PASSWORD_NAME, current_uefi_password, new_uefi_password)
    }

    /// Remove the UEFI password.
    pub fn clear_uefi_password(&self, current_uefi_password: &str) -> (r: Request)
        ensures
            r@ == self.s.spec_change_bios_password(UEFI_PASSWORD_NAME@, current_uefi_password@, ""@),
    {
        self.change_uefi_password(current_uefi_password, "")
    }

    /// GB200 has no EthernetInterfaces under the system; no request is made.
    pub fn get_system_ethernet_interfaces(&self) -> (r: Result<Request, RedfishError>)
        ensures
            result_view(r) == Err::<RequestView, ErrorView>(ErrorView::NotSupported(no_system_ethernet_message())),
    {
        Err(not_supported("GB200 doesn't have Systems EthernetInterface"))
    }

    /// GB200 has no EthernetInterfaces under the system; no request is made.
    pub fn get_system_ethernet_interface(&self, id: &str) -> (r: Result<Request, RedfishError>)
        ensures
            result_view(r) == Err::<RequestView, ErrorView>(ErrorView::NotSupported(no_system_ethernet_message())),
    {
        Err(not_supported("GB200 doesn't have Systems EthernetInterface"))
    }

    /// GB200 has no NetworkDeviceFunctions; no request is made.
    pub fn get_network_device_functions(&self, chassis_id: &str) -> (r: Result<Request, RedfishError>)
        ensures
            result_view(r) == Err::<RequestView, ErrorView>(ErrorView::NotSupported(no_device_functions_message())),
    {
        Err(not_supported("GB200 doesn't have Device Functions in NetworkAdapters yet"))
    }

    /// GB200 has no NetworkDeviceFunctions; no request is made.
    pub fn get_network_device_function(&self, chassis_id: &str, id: &str, port: Option<&str>) -> (r: Result<Request, RedfishError>)
        ensures
            result_view(r) == Err::<RequestView, ErrorView>(ErrorView::NotSupported(no_device_functions_message())),
    {
        Err(not_supported("GB200 doesn't have Device Functions in NetworkAdapters yet"))
    }

    /// GB200 has no GPU sensors where other platforms have them; no request is made.
    pub fn get_gpu_sensors(&self) -> (r: Result<Request, RedfishError>)
        ensures
            result_view(r) == Err::<RequestView, ErrorView>(ErrorView::NotSupported(no_gpu_sensors_message())),
    {
        Err(not_supported("GB200 has no sensors under Chassis/HGX_GPU_#/Sensors/"))
    }

    pub open spec fn spec_get_ports(&self, chassis_id: Seq<char>, adapter: Seq<char>) -> RequestView {
        RequestView {
            method: Method::Get,
            url: "Chassis/"@ + chassis_id + "/NetworkAdapters/"@ + adapter + "/Ports"@,
            body: BodyView::Empty,
        }
    }

    /// Read the ports collection of a network adapter.
    pub fn get_ports(&self, chassis_id: &str, network_adapter: &str) -> (r: Request)
        ensures
            r@ == self.spec_get_ports(chassis_id@, network_adapter@),
    {
        Request::get(cat5("Chassis/", chassis_id, "/NetworkAdapters/", network_adapter, "/Ports"))
    }

    pub open spec fn spec_get_port(&self, chassis_id: Seq<char>, adapter: Seq<char>, id: Seq<char>) -> RequestView {
        RequestView {
            method: Method::Get,
            url: self.spec_get_ports(chassis_id, adapter).url + "/"@ + id,
            body: BodyView::Empty,
        }
    }

    /// Read one port of a network adapter.
    pub fn get_port(&self, chassis_id: &str, network_adapter: &str, id: &str) -> (r: Request)
        ensures
            r@ == self.spec_get_port(chassis_id@, network_adapter@, id@),
    {
        let ports = cat5("Chassis/", chassis_id, "/NetworkAdapters/", network_adapter, "/Ports");
        Request::get(cat3(ports.as_str(), "/", id))
    }

    pub open spec fn spec_get_system_event_log(&self) -> RequestView {
        RequestView {
            method: Method::Get,
            url: self.s.system_url() + "/LogServices/SEL/Entries"@,
            body: BodyView::Empty,
        }
    }

    /// Read the system event log.
    pub fn get_system_event_log(&self) -> (r: Request)
        ensures
            r@ == self.spec_get_system_event_log(),
    {
        Request::get(cat3("Systems/", self.s.system_id(), "/LogServices/SEL/Entries"))
    }

    /// OpenBMC offers no lockdown: there is nothing to send, whatever the target.
    pub fn lockdown(&self, target: EnabledDisabled) -> (r: Option<Request>)
        ensures
            r is None,
    {
        None
    }
}

/// A firmware image upload: where to POST the multipart form, the JSON of its
/// `UpdateParameters` part, and whether to follow a redirect.
#[derive(Clone, Debug)]
pub struct MultipartUpload {
    pub url: String,
    pub parameters: String,
    pub follow_redirect: bool,
}

impl MultipartUpload {
    /// The verb of an upload: a POST, so it is retried only after a transport failure.
    pub fn method(&self) -> (r: Method)
        ensures
            r == Method::Post,
    {
        Method::Post
    }
}

/// A firmware upload is sent at most once against an answering BMC: whatever status it
/// answers with (but 401, which asks for a new session first), the retry decisions end
/// there and the answer stands.
pub proof fn lemma_upload_not_retried(
    policy: crate::transport::RetryPolicy,
    at: crate::transport::Attempts,
    status: u16,
)
    requires
        status != 401,
    ensures
        crate::transport::next_step(policy, Method::Post, at, crate::transport::Outcome::Status(status))
            == crate::transport::Next::Done,
{
    crate::transport::lemma_mutations_not_retried(policy, Method::Post, at, status);
}

/// The message of the error for a BMC without multipart push.
pub open spec fn no_multipart_message() -> Seq<char> {
    "Host BMC does not support HTTP multipart push"@
}

/// The message of the error for an upload answer without a task id.
pub open spec fn no_task_id_message() -> Seq<char> {
    "missing string field `Id`"@
}

impl Bmc {
    /// The upload for a firmware image, given the UpdateService: to its multipart push
    /// URI (relative), with empty parameters, following redirects. `NotSupported` when
    /// the service has no multipart push URI.
    pub fn multipart_upload(&self, update_service: &UpdateService) -> (r: Result<MultipartUpload, RedfishError>)
        ensures
            update_service.multipart_http_push_uri@.len() == 0 <==> r is Err,
            r is Err ==> r->Err_0@ == ErrorView::NotSupported(no_multipart_message()),
            r is Ok ==> r->Ok_0.url@ == strip_redfish_prefix(update_service.multipart_http_push_uri@)
                && r->Ok_0.parameters@ == "{}"@
                && r->Ok_0.follow_redirect,
    {
        if update_service.multipart_http_push_uri.as_str().unicode_len() == 0 {
            return Err(not_supported("Host BMC does not support HTTP multipart push"));
        }
        Ok(MultipartUpload {
            url: relative_url(update_service.multipart_http_push_uri.as_str()),
            parameters: String::from_str("{}"),
            follow_redirect: true,
        })
    }
}

/// The task id of an upload answer, given what reading its `Id` gave: the id when it was
/// a string, else a deserialize error that keeps the URL, the body and the reason.
pub fn task_id_or_error(url: &str, body: &str, id: Result<Option<String>, String>) -> (r: Result<String, RedfishError>)
    ensures
        match id {
            Ok(Some(s)) => r is Ok && r->Ok_0 == s,
            Ok(None) => r is Err && r->Err_0@ == (ErrorView::JsonDeserializeError {
                url: url@,
                body: body@,
                message: no_task_id_message(),
            }),
            Err(m) => r is Err && r->Err_0@ == (ErrorView::JsonDeserializeError {
                url: url@,
                body: body@,
                message: m@,
            }),
        },
{
    match id {
        Ok(Some(s)) => Ok(s),
        Ok(None) => Err(RedfishError::JsonDeserializeError {
            url: String::from_str(url),
            body: String::from_str(body),
            message: String::from_str("missing string field `Id`"),
        }),
        Err(m) => Err(RedfishError::JsonDeserializeError {
            url: String::from_str(url),
            body: String::from_str(body),
            message: m,
        }),
    }
}

/// The task id in the answer `body` to an upload to `url`: the body is read as JSON and
/// its `Id` must be a string. A body that is no JSON, or has no such `Id`, gives a
/// deserialize error that keeps the URL and the body.
pub fn task_id_from_upload_response(url: &str, body: &str) -> (r: Result<String, RedfishError>)
    ensures
        !json_parses(body@) ==> r is Err,
        r is Err ==> r->Err_0 is JsonDeserializeError && r->Err_0->url@ == url@
            && r->Err_0->body@ == body@,
        json_parses(body@) && json_string_member(body@, "Id"@) is Some ==> r is Ok && r->Ok_0@
            == json_string_member(body@, "Id"@)->Some_0,
        json_parses(body@) && json_string_member(body@, "Id"@) is None ==> r is Err && r->Err_0@
            == (ErrorView::JsonDeserializeError { url: url@, body: body@, message: no_task_id_message() }),
{
    task_id_or_error(url, body, string_member(body, "Id"))
}

} // verus!
