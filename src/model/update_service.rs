//! The firmware update service.
use vstd::prelude::*;

verus! {

/// The UpdateService resource; absent fields read as empty or zero.
#[derive(Clone, Debug)]
pub struct UpdateService {
    pub http_push_uri: String,
    pub max_image_size_bytes: i32,
    pub multipart_http_push_uri: String,
}

/// How a BMC fetches an image for a simple update.
#[derive(Clone, Copy, Debug, PartialEq, Eq, Structural)]
pub enum TransferProtocolType {
    FTP,
    SFTP,
    HTTP,
    HTTPS,
    SCP,
    TFTP,
    OEM,
    NFS,
}

/// The firmware component an image is meant for.
#[derive(Clone, Copy, Debug, PartialEq, Eq, Structural)]
pub enum ComponentType {
    BMC,
    UEFI,
    EROTBMC,
    EROTBIOS,
    CPLMID,
    CPLDMB,
    PSU { num: u32 },
    PCIeSwitch { num: u32 },
    PCIeRetimer { num: u32 },
    HGXBMC,
    Unknown,
}

impl TransferProtocolType {
    /// The schema spelling of the value.
    pub open spec fn spec_wire_name(self) -> Seq<char> {
        match self {
            TransferProtocolType::FTP => "FTP"@,
            TransferProtocolType::SFTP => "SFTP"@,
            TransferProtocolType::HTTP => "HTTP"@,
            TransferProtocolType::HTTPS => "HTTPS"@,
            TransferProtocolType::SCP => "SCP"@,
            TransferProtocolType::TFTP => "TFTP"@,
            TransferProtocolType::OEM => "OEM"@,
            TransferProtocolType::NFS => "NFS"@,
        }
    }

    /// The schema spelling of the value.
    pub fn wire_name(self) -> (r: &'static str)
        ensures
            r@ == self.spec_wire_name(),
    {
        match self {
            TransferProtocolType::FTP => "FTP",
            TransferProtocolType::SFTP => "SFTP",
            TransferProtocolType::HTTP => "HTTP",
            TransferProtocolType::HTTPS => "HTTPS",
            TransferProtocolType::SCP => "SCP",
            TransferProtocolType::TFTP => "TFTP",
            TransferProtocolType::OEM => "OEM",
            TransferProtocolType::NFS => "NFS",
        }
    }
}

} // verus!
