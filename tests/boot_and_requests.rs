use libredfish::boot_order::{boot_order_with_first, BootOptionMatchField};
use libredfish::error::RedfishError;
use libredfish::facade::{detect_vendor, BmcVendor, Redfish};
use libredfish::model::boot::{BootSourceOverrideEnabled, BootSourceOverrideTarget};
use libredfish::model::oem::nvidia_viking::BiosLockdownAttributes;
use libredfish::model::system::{BootOption, SecureBoot, SystemPowerControl};
use libredfish::model::task::TaskState;
use libredfish::model::job::Job;
use libredfish::model::ODataLinks;
use libredfish::nvidia_gbx00::{task_id_from_upload_response, task_id_or_error, Bmc, BootOptionName};
use libredfish::model::update_service::UpdateService;
use libredfish::request::{AttributeValue, Body, Method, Request};
use libredfish::standard::RedfishStandard;
use libredfish::url::relative_url;
use libredfish::{nvidia, Boot, EnabledDisabled, Status, StatusInternal};

fn opt(id: &str, name: &str, path: Option<&str>) -> BootOption {
    BootOption {
        id: id.to_string(),
        display_name: name.to_string(),
        uefi_device_path: path.map(|p| p.to_string()),
        boot_option_enabled: Some(true),
    }
}

fn gb200() -> Bmc {
    Bmc::new(RedfishStandard::new("System_0", "BMC_0")).unwrap()
}

fn boot_order(r: &Request) -> Vec<String> {
    match &r.body {
        Body::BootOrder(v) => v.clone(),
        _ => panic!("not a boot order body"),
    }
}

fn sample_options() -> Vec<BootOption> {
    vec![
        opt("Boot0001", "UEFI PXEv4 (MAC:B83FD2909582)", None),
        opt("Boot0002", "UEFI HTTPv4 (MAC:B83FD2909582)", None),
        opt("Boot0003", "ubuntu", Some("HD(1,GPT,A04D0F1E-E02F-4725-9434-0699B52D8FF2,0x800,0x100000)/\\EFI\\ubuntu\\shimaa64.efi")),
    ]
}

#[test]
fn boot_first_hdd_on_gb200_patches_settings() {
    let b = gb200();
    let r = b.boot_first(Boot::HardDisk, &sample_options()).unwrap();
    assert_eq!(r.method, Method::Patch);
    assert_eq!(r.url, "Systems/System_0/Settings");
    assert_eq!(boot_order(&r), vec!["Boot0003", "Boot0001", "Boot0002"]);
}

#[test]
fn boot_first_pxe_and_http_by_display_name() {
    let b = gb200();
    let pxe = b.boot_first(Boot::Pxe, &sample_options()).unwrap();
    assert_eq!(boot_order(&pxe), vec!["Boot0001", "Boot0002", "Boot0003"]);
    let http = b.boot_first(Boot::UefiHttp, &sample_options()).unwrap();
    assert_eq!(boot_order(&http), vec!["Boot0002", "Boot0001", "Boot0003"]);
}

#[test]
fn boot_first_missing_target_is_not_found() {
    let b = gb200();
    let opts = vec![opt("Boot0001", "UEFI PXEv4", None), opt("Boot0002", "ubuntu", None)];
    match b.boot_first(Boot::UefiHttp, &opts) {
        Err(RedfishError::NotFound(msg)) => assert!(msg.contains("UEFI HTTPv4")),
        other => panic!("unexpected {:?}", other),
    }
}

#[test]
fn first_match_wins_and_others_keep_order() {
    let opts = vec![
        opt("A", "disk", None),
        opt("B", "UEFI PXEv4 one", None),
        opt("C", "other", None),
        opt("D", "UEFI PXEv4 two", None),
        opt("E", "last", None),
    ];
    let r = boot_order_with_first(&opts, BootOptionMatchField::DisplayName, "UEFI PXEv4").unwrap();
    assert_eq!(r, vec!["B", "A", "C", "D", "E"]);
}

#[test]
fn match_is_case_sensitive_prefix() {
    let opts = vec![opt("A", "uefi pxev4", None), opt("B", "x UEFI PXEv4", None)];
    assert!(boot_order_with_first(&opts, BootOptionMatchField::DisplayName, "UEFI PXEv4").is_err());
    let empty: Vec<BootOption> = vec![];
    assert!(boot_order_with_first(&empty, BootOptionMatchField::DisplayName, "UEFI PXEv4").is_err());
}

#[test]
fn target_already_first_keeps_order() {
    let opts = vec![opt("A", "UEFI HTTPv4", None), opt("B", "b", None)];
    let r = boot_order_with_first(&opts, BootOptionMatchField::DisplayName, "UEFI HTTPv4").unwrap();
    assert_eq!(r, vec!["A", "B"]);
}

#[test]
fn dpu_first_normalizes_mac() {
    let b = gb200();
    let opts = vec![
        opt("Boot0001", "UEFI HTTPv4 (MAC:000000000001)", None),
        opt("Boot0002", "UEFI HTTPv4 (MAC:B83FD2909582)", None),
    ];
    let r = b.set_boot_order_dpu_first(Some("b8:3f:d2:90:95:82"), &opts).unwrap();
    assert_eq!(boot_order(&r), vec!["Boot0002", "Boot0001"]);
    match b.set_boot_order_dpu_first(None, &opts) {
        Err(RedfishError::NotSupported(_)) => {}
        other => panic!("unexpected {:?}", other),
    }
}

#[test]
fn machine_setup_disables_secure_boot_first() {
    let b = gb200();
    let (first, second) = b.machine_setup(None, &sample_options());
    assert_eq!(first.url, "Systems/System_0/SecureBoot");
    assert!(second.is_err());
}

#[test]
fn machine_setup_status_reports_secure_boot() {
    let b = gb200();
    let on = SecureBoot { secure_boot_enable: Some(true), secure_boot_current_boot: None, secure_boot_mode: None };
    let st = b.machine_setup_status(&on);
    assert!(!st.is_done);
    assert_eq!(st.diffs.len(), 1);
    assert_eq!(st.diffs[0].key, "SecureBoot");
    assert_eq!(st.diffs[0].expected, "false");
    assert_eq!(st.diffs[0].actual, "true");
    let off = SecureBoot { secure_boot_enable: None, secure_boot_current_boot: None, secure_boot_mode: None };
    assert!(b.machine_setup_status(&off).is_done);
}

#[test]
fn boot_once_on_gb200_uses_settings() {
    let b = gb200();
    let r = b.boot_once(Boot::UefiHttp);
    assert_eq!(r.url, "Systems/System_0/Settings");
    match r.body {
        Body::BootOverride { enabled, target } => {
            assert_eq!(enabled, BootSourceOverrideEnabled::Once);
            assert_eq!(target, BootSourceOverrideTarget::UefiHttp);
        }
        _ => panic!("wrong body"),
    }
    let s = RedfishStandard::new("1", "1");
    let r = s.boot_once(Boot::HardDisk);
    assert_eq!(r.url, "Systems/1");
    assert!(matches!(r.body, Body::BootOverride { target: BootSourceOverrideTarget::Hdd, .. }));
}

#[test]
fn gb200_system_ethernet_interface_not_supported() {
    let b = gb200();
    match b.get_system_ethernet_interface("any") {
        Err(RedfishError::NotSupported(m)) => assert_eq!(m, "GB200 doesn't have Systems EthernetInterface"),
        other => panic!("unexpected {:?}", other),
    }
    assert!(b.get_network_device_functions("Chassis_0").is_err());
}

#[test]
fn password_policy_body() {
    let r = gb200().set_machine_password_policy();
    assert_eq!(r.url, "AccountService");
    match r.body {
        Body::Properties(v) => {
            assert_eq!(v[0].name, "AccountLockoutThreshold");
            assert!(matches!(v[0].value, AttributeValue::Integer(0)));
            assert_eq!(v[1].name, "AccountLockoutDuration");
            assert!(matches!(v[1].value, AttributeValue::Integer(600)));
        }
        _ => panic!("wrong body"),
    }
}

#[test]
fn uefi_password_requests() {
    let r = gb200().clear_uefi_password("old");
    assert_eq!(r.url, "Systems/System_0/Bios/Actions/Bios.ChangePassword");
    let v = nvidia::Bmc::new(RedfishStandard::new("1", "1")).unwrap();
    let r = v.change_uefi_password("a", "b");
    assert_eq!(r.method, Method::Patch);
    assert_eq!(r.url, "Systems/1/Bios/Settings");
    let p = v.get_ports("Card1");
    assert_eq!(p.url, "Chassis/Card1/NetworkAdapters/NvidiaNetworkAdapter/Ports");
}

#[test]
fn boot_option_names() {
    assert_eq!(BootOptionName::Http.to_string(), "UEFI HTTPv4");
    assert_eq!(BootOptionName::Pxe.to_string(), "UEFI PXEv4");
    assert_eq!(BootOptionName::Hdd.to_string(), "HD(");
}

#[test]
fn relative_url_strips_prefix() {
    assert_eq!(relative_url("/redfish/v1/Chassis/PDB_0/Sensors/HSC_0_Pwr"), "Chassis/PDB_0/Sensors/HSC_0_Pwr");
    assert_eq!(relative_url("/redfish/v1//redfish/v1/Systems"), "Systems");
    assert_eq!(relative_url("Systems/1"), "Systems/1");
    assert_eq!(relative_url(""), "");
}

#[test]
fn multipart_task_id_parsed() {
    let id = task_id_from_upload_response("UpdateService/upload", "{\"Id\": \"JID_1234\", \"TaskState\": \"New\"}");
    assert_eq!(id.unwrap(), "JID_1234");
    match task_id_from_upload_response("UpdateService/upload", "not json") {
        Err(RedfishError::JsonDeserializeError { url, body, .. }) => {
            assert_eq!(url, "UpdateService/upload");
            assert_eq!(body, "not json");
        }
        other => panic!("unexpected {:?}", other),
    }
    assert!(task_id_from_upload_response("u", "{\"Name\": \"x\"}").is_err());
    assert!(task_id_or_error("u", "b", Ok(None)).is_err());
}

#[test]
fn multipart_requires_push_uri() {
    let b = gb200();
    let none = UpdateService { http_push_uri: String::new(), max_image_size_bytes: 0, multipart_http_push_uri: String::new() };
    assert!(matches!(b.multipart_upload(&none), Err(RedfishError::NotSupported(_))));
    let some = UpdateService {
        http_push_uri: String::new(),
        max_image_size_bytes: 0,
        multipart_http_push_uri: "/redfish/v1/UpdateService/update-multipart".to_string(),
    };
    let up = b.multipart_upload(&some).unwrap();
    assert_eq!(up.url, "UpdateService/update-multipart");
    assert_eq!(up.parameters, "{}");
    assert!(up.follow_redirect);
}

#[test]
fn lockdown_requests_and_status() {
    let s = RedfishStandard::new("1", "1");
    let r = s.lockdown(EnabledDisabled::Enabled);
    assert_eq!(r.url, "Systems/1/Bios/Settings");
    match &r.body {
        Body::Attributes(v) => {
            assert_eq!(v[0].name, "KcsInterfaceDisable");
            assert!(matches!(&v[0].value, AttributeValue::Text(t) if t == "Deny All"));
            assert!(matches!(&v[1].value, AttributeValue::Text(t) if t == "Disabled"));
        }
        _ => panic!("wrong body"),
    }
    let locked = BiosLockdownAttributes { kcs_interface_disable: "Deny All".to_string(), redfish_enable: EnabledDisabled::Disabled };
    let st = s.lockdown_status(&locked);
    assert!(st.is_fully_enabled());
    assert_eq!(st.message(), "kcs_interface_disable=Deny All, redfish_enable=Disabled");
    let open = BiosLockdownAttributes { kcs_interface_disable: "Allow All".to_string(), redfish_enable: EnabledDisabled::Enabled };
    assert!(s.lockdown_status(&open).is_fully_disabled());
    let half = BiosLockdownAttributes { kcs_interface_disable: "Deny All".to_string(), redfish_enable: EnabledDisabled::Enabled };
    assert!(s.lockdown_status(&half).is_partially_enabled());
    assert!(gb200().lockdown(EnabledDisabled::Enabled).is_none());
}

#[test]
fn lockdown_twice_gives_same_request() {
    let s = RedfishStandard::new("1", "1");
    let a = s.lockdown(EnabledDisabled::Disabled);
    let b = s.lockdown(EnabledDisabled::Disabled);
    assert_eq!(a.url, b.url);
    assert_eq!(format!("{:?}", a.body), format!("{:?}", b.body));
}

#[test]
fn status_accessors() {
    let s = Status { status: StatusInternal::Partial, message: "m".to_string() };
    assert!(s.is_partially_enabled());
    assert!(!s.is_fully_enabled());
    assert!(!s.is_fully_disabled());
    assert_eq!(s.message(), "m");
}

#[test]
fn vendor_detection() {
    assert_eq!(detect_vendor("Dell Inc.", "PowerEdge"), BmcVendor::Dell);
    assert_eq!(detect_vendor("LENOVO", "SR650"), BmcVendor::Lenovo);
    assert_eq!(detect_vendor("NVIDIA", "GB200 NVL"), BmcVendor::NvidiaGb200);
    assert_eq!(detect_vendor("Nvidia", "P3809 Bianca"), BmcVendor::NvidiaGb200);
    assert_eq!(detect_vendor("NVIDIA", "DGX H100"), BmcVendor::Nvidia);
    assert_eq!(detect_vendor("Supermicro", "X13"), BmcVendor::Standard);
}

#[test]
fn facade_dispatches_to_backend() {
    let s = RedfishStandard::new("System_0", "BMC_0");
    let f = Redfish::for_vendor(BmcVendor::NvidiaGb200, s.clone());
    let direct = gb200();
    let a = f.boot_first(Boot::HardDisk, &sample_options()).unwrap();
    let b = direct.boot_first(Boot::HardDisk, &sample_options()).unwrap();
    assert_eq!(a.url, b.url);
    assert_eq!(boot_order(&a), boot_order(&b));
    assert_eq!(f.boot_once(Boot::Pxe).url, direct.boot_once(Boot::Pxe).url);
    assert!(f.lockdown(EnabledDisabled::Enabled).is_none());
    assert!(f.get_system_ethernet_interface("x").is_err());
    let std_f = Redfish::for_vendor(BmcVendor::Standard, s.clone());
    assert_eq!(std_f.get_system_ethernet_interface("x").unwrap().url, "Systems/System_0/EthernetInterfaces/x");
    let p = std_f.power(SystemPowerControl::ForceRestart);
    assert_eq!(p.url, "Systems/System_0/Actions/ComputerSystem.Reset");
    assert!(matches!(p.body, Body::Reset(SystemPowerControl::ForceRestart)));
    assert_eq!(std_f.get_task("7").url, "TaskService/Tasks/7");
}

#[test]
fn job_as_task() {
    let odata = ODataLinks { odata_context: None, odata_id: "/redfish/v1/Jobs/1".to_string(), odata_type: "#Job".to_string() };
    let j = Job { odata, id: None, name: Some("fw".to_string()), percent_complete: Some(40), job_state: Some(TaskState::Running) };
    let t = j.as_task();
    assert_eq!(t.id, "");
    assert_eq!(t.name.as_deref(), Some("fw"));
    assert_eq!(t.percent_complete, Some(40));
    assert_eq!(t.task_state, Some(TaskState::Running));
    assert!(t.messages.is_empty());
    assert_eq!(t.odata.odata_id, "/redfish/v1/Jobs/1");
}

fn account(id: &str, user: &str) -> libredfish::model::account_service::ManagerAccount {
    libredfish::model::account_service::ManagerAccount {
        id: id.to_string(),
        username: user.to_string(),
        name: String::new(),
        description: String::new(),
        role_id: "Administrator".to_string(),
        enabled: true,
        locked: false,
    }
}

#[test]
fn change_password_finds_account_by_name() {
    let f = Redfish::for_vendor(BmcVendor::Dell, RedfishStandard::new("1", "1"));
    let accounts = vec![account("1", ""), account("2", "root"), account("3", "root")];
    let r = f.change_password(&accounts, "root", "secret").unwrap();
    assert_eq!(r.method, Method::Patch);
    assert_eq!(r.url, "AccountService/Accounts/2");
    match r.body {
        Body::Properties(v) => assert!(v[0].name == "Password" && matches!(&v[0].value, AttributeValue::Text(t) if t == "secret")),
        _ => panic!("wrong body"),
    }
    assert!(matches!(f.change_password(&accounts, "admin", "x"), Err(RedfishError::NotFound(_))));
    let c = f.create_user("ops", "pw", libredfish::model::account_service::RoleId::ReadOnly);
    assert_eq!(c.url, "AccountService/Accounts");
    match c.body {
        Body::Properties(v) => assert!(matches!(&v[2].value, AttributeValue::Text(t) if t == "ReadOnly")),
        _ => panic!("wrong body"),
    }
    assert!(account("7", "a") == account("7", "b"));
}

#[test]
fn member_ids_are_last_segments() {
    let ids = libredfish::url::member_ids(&vec![
        "/redfish/v1/Chassis/PDB_0".to_string(),
        "/redfish/v1/Chassis/HGX_GPU_0/".to_string(),
        "Chassis_0".to_string(),
    ]);
    assert_eq!(ids, vec!["PDB_0", "", "Chassis_0"]);
}

#[test]
fn read_through_requests_and_spellings() {
    let f = Redfish::for_vendor(BmcVendor::Standard, RedfishStandard::new("1", "bmc"));
    assert_eq!(f.get_service_root().url, "");
    assert_eq!(f.get_systems().url, "Systems");
    assert_eq!(f.get_managers().url, "Managers");
    let id = libredfish::model::ODataId { odata_id: "/redfish/v1/Chassis".to_string() };
    assert_eq!(f.get_collection(&id).url, "Chassis");
    assert_eq!(f.get_resource(&id).url, "Chassis");
    assert_eq!(f.get_chassis_network_adapters("C1").url, "Chassis/C1/NetworkAdapters");
    assert_eq!(f.get_chassis_network_adapter("C1", "N1").url, "Chassis/C1/NetworkAdapters/N1");
    assert_eq!(f.get_base_network_adapters("S1").url, "Systems/S1/NetworkAdapters");
    assert_eq!(f.get_base_network_adapter("S1", "N1").url, "Systems/S1/NetworkAdapters/N1");
    assert_eq!(f.get_manager_ethernet_interfaces().url, "Managers/bmc/EthernetInterfaces");
    assert_eq!(f.get_manager_ethernet_interface("eth0").url, "Managers/bmc/EthernetInterfaces/eth0");
    assert_eq!(BootSourceOverrideTarget::NoSource.wire_name(), "None");
    assert_eq!(BootSourceOverrideTarget::SDCard.wire_name(), "SDCard");
    assert_eq!(BootSourceOverrideEnabled::Once.wire_name(), "Once");
    assert_eq!(SystemPowerControl::GracefulRestart.wire_name(), "GracefulRestart");
    assert_eq!(libredfish::model::update_service::TransferProtocolType::HTTPS.wire_name(), "HTTPS");
}

#[test]
fn task_id_member_must_be_a_string() {
    assert!(task_id_from_upload_response("u", "{\"Id\": 7}").is_err());
    assert!(task_id_from_upload_response("u", "[\"Id\"]").is_err());
    match task_id_from_upload_response("u", "{\"Name\": \"x\"}") {
        Err(RedfishError::JsonDeserializeError { message, .. }) => assert_eq!(message, "missing string field `Id`"),
        other => panic!("unexpected {:?}", other),
    }
}
