//! The network services a BMC offers.
use vstd::prelude::*;

use crate::model::ODataLinks;

verus! {

#[derive(Clone, Copy, Debug, PartialEq, Eq, Structural)]
pub struct Protocol {
    pub port: Option<i64>,
    pub protocol_enabled: Option<bool>,
}

#[derive(Clone, Debug)]
pub struct ManagerNetworkProtocol {
    pub odata: ODataLinks,
    pub name: Option<String>,
    pub dhcp: Option<Protocol>,
    pub dhcpv6: Option<Protocol>,
    pub description: Option<String>,
    pub fqdn: Option<String>,
    pub http: Option<Protocol>,
    pub host_name: Option<String>,
    pub ipmi: Option<Protocol>,
    pub id: Option<String>,
    pub kvmip: Option<Protocol>,
    pub rdp: Option<Protocol>,
    pub rfb: Option<Protocol>,
    pub ssh: Option<Protocol>,
    pub snmp: Option<Protocol>,
    pub telnet: Option<Protocol>,
    pub virtual_media: Option<Protocol>,
}

impl ManagerNetworkProtocol {
    /// Is IPMI over LAN switched on? An absent entry or flag reads as off.
    pub fn is_ipmi_enabled(&self) -> (r: bool)
        ensures
            r == (self.ipmi is Some && self.ipmi->Some_0.protocol_enabled == Some(true)),
    {
        match self.ipmi {
            Some(p) => match p.protocol_enabled {
                Some(b) => b,
                None => false,
            },
            None => false,
        }
    }
}

} // verus!
