use libredfish::model::sensor::{Fan, LeakDetector, PowerSupply, Sensor, TemperatureReading};
use libredfish::model::system::{Chassis, PCIeDevice, ResourceStatus};
use libredfish::error::RedfishError;
use libredfish::model::task::{Task, TaskState};
use libredfish::model::update_service::UpdateService;
use libredfish::model::{Message, ODataLinks};
use libredfish::nvidia_gbx00::Bmc;
use libredfish::standard::RedfishStandard;
use libredfish::model::ODataId;
use libredfish::pcie::{member_requests, pcie_chassis, pcie_collection_request, select_pcie_devices};
use libredfish::request::Method;
use libredfish::stitching::{
    assemble_power, assemble_thermal, power_sensor_fetches, power_sensors_request, thermal_collection_requests,
    thermal_member_fetches, PowerRole, ThermalItem, ThermalRole,
};
use libredfish::task_poll::{PollNext, TaskPoller};
use libredfish::transport::{backoff_exec, classify_status, Attempts, Next, Outcome, RetryPolicy, StatusKind};

fn sensor(id: &str, reading: f64, max: Option<f64>) -> Sensor<f64> {
    Sensor {
        odata_id: id.to_string(),
        id: None,
        name: Some(id.to_string()),
        reading: Some(reading),
        reading_range_max: max,
        reading_units: None,
    }
}

fn link(s: &str) -> Option<ODataId> {
    Some(ODataId { odata_id: s.to_string() })
}

fn chassis(id: &str, sensors: bool, thermal: bool) -> Chassis {
    Chassis {
        id: id.to_string(),
        sensors: if sensors { link("/redfish/v1/x/Sensors") } else { None },
        thermal_subsystem: if thermal { link("/redfish/v1/x/ThermalSubsystem") } else { None },
        pcie_devices: None,
        network_adapters: None,
    }
}

fn ids(v: &[&str]) -> Vec<String> {
    v.iter().map(|s| s.to_string()).collect()
}

#[test]
fn power_metrics_assembly_on_gb200() {
    let pdb_members = ids(&[
        "/redfish/v1/Chassis/PDB_0/Sensors/HSC_0_Pwr",
        "/redfish/v1/Chassis/PDB_0/Sensors/HSC_0_Cur",
        "/redfish/v1/Chassis/PDB_0/Sensors/HSC_1_Pwr",
        "/redfish/v1/Chassis/PDB_0/Sensors/HSC_1_Cur",
        "/redfish/v1/Chassis/PDB_0/Sensors/HSC_0_Temp",
    ]);
    let c0_members = ids(&[
        "/redfish/v1/Chassis/Chassis_0/Sensors/CPU_0_Volt_1",
        "/redfish/v1/Chassis/Chassis_0/Sensors/FAN_1",
        "/redfish/v1/Chassis/Chassis_0/Sensors/CPU_0_Volt_2",
    ]);
    assert!(power_sensors_request("PDB_0", &chassis("PDB_0", true, false)).is_some());
    assert!(power_sensors_request("HGX_GPU_0", &chassis("HGX_GPU_0", false, true)).is_none());
    let pdb_plan = power_sensor_fetches("PDB_0", &pdb_members);
    assert_eq!(pdb_plan.len(), 4);
    assert_eq!(pdb_plan[0].url, "Chassis/PDB_0/Sensors/HSC_0_Pwr");
    assert_eq!(pdb_plan[0].role, PowerRole::Hsc0Power);
    assert_eq!(pdb_plan[3].role, PowerRole::Hsc1Current);
    let c0_plan = power_sensor_fetches("Chassis_0", &c0_members);
    assert_eq!(c0_plan.len(), 2);
    assert!(c0_plan.iter().all(|f| f.role == PowerRole::Voltage));
    // HSC names count only on PDB_0
    assert!(power_sensor_fetches("Chassis_0", &pdb_members).is_empty());

    let readings = vec![
        (PowerRole::Hsc0Power, sensor("HSC_0_Pwr", 250.0, Some(500.0))),
        (PowerRole::Hsc0Current, sensor("HSC_0_Cur", 20.0, None)),
        (PowerRole::Hsc1Power, sensor("HSC_1_Pwr", 240.0, Some(500.0))),
        (PowerRole::Hsc1Current, sensor("HSC_1_Cur", 19.0, None)),
        (PowerRole::Voltage, sensor("CPU_0_Volt_1", 12.0, None)),
        (PowerRole::Voltage, sensor("CPU_0_Volt_2", 1.8, None)),
    ];
    let pdb: PowerSupply<f64> = PowerSupply {
        odata_id: Some("/redfish/v1/Chassis/PDB_0".to_string()),
        id: Some("PDB_0".to_string()),
        name: Some("PDB".to_string()),
        last_power_output_watts: None,
        power_output_watts: None,
        power_capacity_watts: None,
        power_output_amps: None,
    };
    let power = assemble_power(&pdb, &readings);
    let ps = power.power_supplies.unwrap();
    assert_eq!(ps.len(), 2);
    assert_eq!(ps[0].power_output_watts, Some(250.0));
    assert_eq!(ps[0].last_power_output_watts, Some(250.0));
    assert_eq!(ps[0].power_capacity_watts, Some(500.0));
    assert_eq!(ps[0].power_output_amps, Some(20.0));
    assert_eq!(ps[1].power_output_watts, Some(240.0));
    assert_eq!(ps[1].power_output_amps, Some(19.0));
    assert_eq!(ps[1].id.as_deref(), Some("PDB_0"));
    let v = power.voltages.unwrap();
    assert_eq!(v.len(), 2);
    assert_eq!(v[1].reading_volts, Some(1.8));
    assert_eq!(power.id, "Power");
}

#[test]
fn thermal_assembly_on_gb200() {
    let c = thermal_collection_requests("Chassis_0", &chassis("Chassis_0", false, true));
    assert_eq!(c.metrics.unwrap().url, "Chassis/Chassis_0/ThermalSubsystem/ThermalMetrics");
    assert_eq!(c.leak_detectors.unwrap().url, "Chassis/Chassis_0/ThermalSubsystem/LeakDetection/LeakDetectors");
    assert_eq!(c.sensors.unwrap().url, "Chassis/Chassis_0/Sensors");
    let other = thermal_collection_requests("HGX_GPU_0", &chassis("HGX_GPU_0", false, false));
    assert!(other.metrics.is_none() && other.leak_detectors.is_none() && other.sensors.is_none());

    let leaks = ids(&["/redfish/v1/Chassis/Chassis_0/ThermalSubsystem/LeakDetection/LeakDetectors/L1"]);
    let members = ids(&[
        "/redfish/v1/Chassis/Chassis_0/Sensors/CPU_Temp_0",
        "/redfish/v1/Chassis/Chassis_0/Sensors/FAN_0",
        "/redfish/v1/Chassis/Chassis_0/Sensors/Volt_0",
    ]);
    let plan = thermal_member_fetches("Chassis_0", true, &leaks, &members);
    let roles: Vec<ThermalRole> = plan.iter().map(|f| f.role).collect();
    assert_eq!(roles, vec![ThermalRole::Leak, ThermalRole::Temperature, ThermalRole::Fan]);
    assert_eq!(plan[2].url, "Chassis/Chassis_0/Sensors/FAN_0");
    let no_sensors = thermal_member_fetches("Chassis_0", false, &vec![], &members);
    assert_eq!(no_sensors.len(), 1);
    assert_eq!(no_sensors[0].role, ThermalRole::Fan);

    let items: Vec<ThermalItem<f64>> = vec![
        ThermalItem::Metrics(vec![TemperatureReading { data_source_uri: None, device_name: Some("GPU".to_string()), reading: Some(41.0) }]),
        ThermalItem::Leak(LeakDetector { odata_id: "L1".to_string(), name: None, detector_state: Some("OK".to_string()) }),
        ThermalItem::Temperature(sensor("CPU_Temp_0", 55.5, Some(90.0))),
        ThermalItem::Fan(Fan { odata_id: "FAN_0".to_string(), name: None, reading: Some(3000.0), reading_units: None }),
    ];
    let th = assemble_thermal(&items);
    assert_eq!(th.temperatures.len(), 2);
    assert_eq!(th.temperatures[0].name.as_deref(), Some("GPU"));
    assert_eq!(th.temperatures[1].reading_celsius, Some(55.5));
    assert_eq!(th.temperatures[1].upper_threshold_critical, Some(90.0));
    assert_eq!(th.fans.len(), 1);
    assert_eq!(th.leak_detectors.unwrap().len(), 1);
}

fn device(id: Option<&str>, maker: Option<&str>, state: Option<&str>) -> PCIeDevice {
    PCIeDevice {
        odata_id: format!("/redfish/v1/Chassis/HGX/PCIeDevices/{}", id.unwrap_or("none")),
        id: id.map(|s| s.to_string()),
        name: None,
        manufacturer: maker.map(|s| s.to_string()),
        firmware_version: None,
        part_number: None,
        serial_number: None,
        status: Some(ResourceStatus { health: None, state: state.map(|s| s.to_string()) }),
    }
}

#[test]
fn pcie_devices_filtered_and_sorted() {
    let walked = pcie_chassis(&ids(&["BMC_0", "Chassis_0", "HGX_BMC_0", "HGX_GPU_0"]));
    assert_eq!(walked, vec!["Chassis_0", "HGX_GPU_0"]);
    let devices = vec![
        device(Some("d1"), Some("Nvidia"), Some("Enabled")),
        device(Some("d2"), Some("Mellanox"), Some("Enabled")),
        device(Some("d3"), Some("Nvidia"), Some("ENABLED")),
        device(Some("d4"), Some("Intel"), Some("Disabled")),
        device(None, Some("Intel"), Some("Enabled")),
        device(Some("d6"), None, Some("Enabled")),
        device(Some("d7"), Some("Mellanox"), None),
        device(Some("d8"), Some("Mellanox"), Some("StandbyOffline")),
    ];
    let out = select_pcie_devices(&devices);
    let got: Vec<&str> = out.iter().map(|d| d.id.as_deref().unwrap()).collect();
    assert_eq!(got, vec!["d6", "d2", "d1", "d3"]);
    let mut c = chassis("HGX_GPU_0", false, false);
    assert!(pcie_collection_request(&c).is_none());
    c.pcie_devices = link("/redfish/v1/Chassis/HGX_GPU_0/PCIeDevices");
    assert_eq!(pcie_collection_request(&c).unwrap().url, "Chassis/HGX_GPU_0/PCIeDevices");
    let reqs = member_requests(&ids(&["/redfish/v1/Chassis/HGX_GPU_0/PCIeDevices/GPU_0"]));
    assert_eq!(reqs[0].url, "Chassis/HGX_GPU_0/PCIeDevices/GPU_0");
}

fn policy() -> RetryPolicy {
    RetryPolicy { max_retries: 3, base_delay_ms: 100, max_total_delay_ms: 10_000 }
}

#[test]
fn get_retries_with_backoff_on_5xx_and_transport() {
    let p = policy();
    let mut at = Attempts::new();
    let n = at.next(&p, Method::Get, Outcome::Status(503));
    assert_eq!(n, Next::Retry { delay_ms: 100 });
    at.record(n);
    let n = at.next(&p, Method::Get, Outcome::TransportFailure);
    assert_eq!(n, Next::Retry { delay_ms: 200 });
    at.record(n);
    let n = at.next(&p, Method::Get, Outcome::Status(500));
    assert_eq!(n, Next::Retry { delay_ms: 400 });
    at.record(n);
    assert_eq!(at.next(&p, Method::Get, Outcome::Status(500)), Next::GiveUp);
    assert_eq!(at.next(&p, Method::Get, Outcome::Status(200)), Next::Done);
    assert_eq!(backoff_exec(u64::MAX, 3), u64::MAX);
}

#[test]
fn mutations_are_not_retried_after_an_answer() {
    let p = policy();
    let at = Attempts::new();
    for m in [Method::Patch, Method::Post, Method::Delete] {
        assert_eq!(at.next(&p, m, Outcome::Status(500)), Next::Done);
        assert_eq!(at.next(&p, m, Outcome::Status(400)), Next::Done);
        assert_eq!(at.next(&p, m, Outcome::TransportFailure), Next::Retry { delay_ms: 100 });
    }
}

#[test]
fn reauthentication_once() {
    let p = policy();
    let mut at = Attempts::new();
    let n = at.next(&p, Method::Get, Outcome::Status(401));
    assert_eq!(n, Next::Reauthenticate);
    at.record(n);
    assert_eq!(at.next(&p, Method::Get, Outcome::Status(200)), Next::Done);
    assert_eq!(at.next(&p, Method::Get, Outcome::Status(401)), Next::Done);
    assert_eq!(at.retries, 0);
}

#[test]
fn wall_clock_budget_bounds_retries() {
    let p = RetryPolicy { max_retries: 10, base_delay_ms: 1000, max_total_delay_ms: 2500 };
    let mut at = Attempts::new();
    let n = at.next(&p, Method::Get, Outcome::TransportFailure);
    assert_eq!(n, Next::Retry { delay_ms: 1000 });
    at.record(n);
    assert_eq!(at.next(&p, Method::Get, Outcome::TransportFailure), Next::GiveUp);
}

#[test]
fn poller_stops_at_terminal_state() {
    let mut p = TaskPoller::new(10);
    let seq = [Some(TaskState::New), None, Some(TaskState::Running), Some(TaskState::Completed)];
    let mut out = vec![];
    for s in seq {
        out.push(p.observe(s));
    }
    assert_eq!(out, vec![PollNext::Wait, PollNext::Wait, PollNext::Wait, PollNext::Finished(TaskState::Completed)]);
    assert_eq!(p.ticks, 3);
    let mut q = TaskPoller::new(10);
    assert_eq!(q.observe(Some(TaskState::Exception)), PollNext::Failed);
    assert_eq!(q.observe(Some(TaskState::Cancelled)), PollNext::Finished(TaskState::Cancelled));
}

#[test]
fn poller_times_out() {
    let mut p = TaskPoller::new(2);
    assert_eq!(p.observe(Some(TaskState::Running)), PollNext::Wait);
    assert_eq!(p.observe(Some(TaskState::Running)), PollNext::TimedOut);
    let mut z = TaskPoller::new(0);
    assert_eq!(z.observe(Some(TaskState::Pending)), PollNext::TimedOut);
    assert!(TaskState::Completed.is_terminal());
    assert!(!TaskState::Service.is_terminal());
}

#[test]
fn power_base_is_pdb() {
    assert_eq!(libredfish::stitching::power_supply_base_request().url, "Chassis/PDB_0");
}

#[test]
fn status_classification() {
    assert_eq!(classify_status(200), StatusKind::Success);
    assert_eq!(classify_status(204), StatusKind::Success);
    assert_eq!(classify_status(302), StatusKind::Success);
    assert_eq!(classify_status(401), StatusKind::Authentication);
    assert_eq!(classify_status(403), StatusKind::Authentication);
    assert_eq!(classify_status(404), StatusKind::NotFound);
    assert_eq!(classify_status(400), StatusKind::Remote);
    assert_eq!(classify_status(500), StatusKind::Remote);
}

#[test]
fn unreadable_pcie_collection_is_passed_over() {
    let none = libredfish::pcie::pcie_device_requests(Err(RedfishError::NotFound("x".to_string())));
    assert!(none.is_empty());
    let some = libredfish::pcie::pcie_device_requests(Ok(ids(&["/redfish/v1/Chassis/C/PCIeDevices/D"])));
    assert_eq!(some[0].url, "Chassis/C/PCIeDevices/D");
}

#[test]
fn task_exception_surfaces_messages() {
    let task = Task {
        odata: ODataLinks { odata_context: None, odata_id: String::new(), odata_type: String::new() },
        id: "JID_1".to_string(),
        messages: vec![Message { message: "flash failed".to_string(), message_id: "X".to_string(), message_args: vec![], severity: None, resolution: None }],
        name: None,
        task_state: Some(TaskState::Exception),
        task_status: None,
        task_monitor: None,
        percent_complete: None,
    };
    match libredfish::task_poll::task_exception_error(200, task) {
        RedfishError::RemoteError { status, error } => {
            assert_eq!(status, 200);
            assert_eq!(error.error.message, "Task JID_1 ended in Exception");
            assert_eq!(error.error.extended[0].message, "flash failed");
        }
        other => panic!("unexpected {:?}", other),
    }
}

#[test]
fn upload_is_a_post() {
    let b = Bmc::new(RedfishStandard::new("S", "M")).unwrap();
    let svc = UpdateService { http_push_uri: String::new(), max_image_size_bytes: 0, multipart_http_push_uri: "UpdateService/upload".to_string() };
    let up = b.multipart_upload(&svc).unwrap();
    assert_eq!(up.method(), Method::Post);
    let at = Attempts::new();
    assert_eq!(at.next(&policy(), up.method(), Outcome::Status(500)), Next::Done);
}
