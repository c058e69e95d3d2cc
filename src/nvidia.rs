//! The backend for NVIDIA (Viking) BMCs: the standard backend but for the network
//! adapter, which has a fixed name, and the UEFI password, which is a BIOS attribute.
use vstd::prelude::*;

use crate::error::RedfishError;
use crate::request::{attributes_view, text_attribute, AttributeView, Body, BodyView, Method, Request, RequestView, ValueView};
use crate::standard::RedfishStandard;
use crate::url::{cat2, cat3};

verus! {

/// The BMC's single network adapter.
pub open spec fn adapter_url(chassis_id: Seq<char>) -> Seq<char> {
    "Chassis/"@ + chassis_id + "/NetworkAdapters/NvidiaNetworkAdapter"@
}

/// The URL of the network adapter of a chassis.
fn adapter(chassis_id: &str) -> (r: String)
    ensures
        r@ == adapter_url(chassis_id@),
{
    cat3("Chassis/", chassis_id, "/NetworkAdapters/NvidiaNetworkAdapter")
}

/// The NVIDIA (Viking) backend.
#[derive(Clone, Debug)]
pub struct Bmc {
    pub s: RedfishStandard,
}

impl Bmc {
    /// An NVIDIA backend over the standard one.
    pub fn new(s: RedfishStandard) -> (r: Result<Bmc, RedfishError>)
        ensures
            r is Ok && r->Ok_0.s == s,
    {
        Ok(Bmc { s })
    }

    /// Read the ports collection of the network adapter.
    pub fn get_ports(&self, chassis_id: &str) -> (r: Request)
        ensures
            r@ == (RequestView { method: Method::Get, url: adapter_url(chassis_id@) + "/Ports"@, body: BodyView::Empty }),
    {
        Request::get(cat2(adapter(chassis_id).as_str(), "/Ports"))
    }

    /// Read one port of the network adapter.
    pub fn get_port(&self, chassis_id: &str, id: &str) -> (r: Request)
        ensures
            r@ == (RequestView { method: Method::Get, url: adapter_url(chassis_id@) + "/Ports/"@ + id@, body: BodyView::Empty }),
    {
        Request::get(cat3(adapter(chassis_id).as_str(), "/Ports/", id))
    }

    /// Read the NetworkDeviceFunctions collection of the network adapter.
    pub fn get_network_device_functions(&self, chassis_id: &str) -> (r: Request)
        ensures
            r@ == (RequestView {
                method: Method::Get,
                url: adapter_url(chassis_id@) + "/NetworkDeviceFunctions"@,
                body: BodyView::Empty,
            }),
    {
        Request::get(cat2(adapter(chassis_id).as_str(), "/NetworkDeviceFunctions"))
    }

    /// Read one NetworkDeviceFunction of the network adapter.
    pub fn get_network_device_function(&self, chassis_id: &str, id: &str) -> (r: Request)
        ensures
            r@ == (RequestView {
                method: Method::Get,
                url: adapter_url(chassis_id@) + "/NetworkDeviceFunctions/"@ + id@,
                body: BodyView::Empty,
            }),
    {
        Request::get(cat3(adapter(chassis_id).as_str(), "/NetworkDeviceFunctions/", id))
    }

    pub open spec fn spec_change_uefi_password(&self, current: Seq<char>, new: Seq<char>) -> RequestView {
        RequestView {
            method: Method::Patch,
            url: self.s.bios_settings_url(),
            body: BodyView::Attributes(
                seq![
                    AttributeView { name: "CurrentUefiPassword"@, value: ValueView::Text(current) },
                    AttributeView { name: "UefiPassword"@, value: ValueView::Text(new) },
                ],
            ),
        }
    }

    /// Change the UEFI password: both passwords are staged as BIOS attributes.
    pub fn change_uefi_password(&self, current_uefi_password: &str, new_uefi_password: &str) -> (r: Request)
        ensures
            r@ == self.spec_change_uefi_password(current_uefi_password@, new_uefi_password@),
    {
        let v = vec![
            text_attribute("CurrentUefiPassword", current_uefi_password),
            text_attribute("UefiPassword", new_uefi_password),
        ];
        assert(attributes_view(v@) =~= seq![v@[0]@, v@[1]@]);
        Request::patch(cat3("Systems/", self.s.system_id(), "/Bios/Settings"), Body::Attributes(v))
    }
}

} // verus!
