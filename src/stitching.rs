//! Telemetry of a GB200 chassis federation, stitched together from sensor subtrees.
//!
//! Each walk has three steps: which collections of a chassis to read, which members of
//! them to read (and what each is for), and how the readings fold into one record. The
//! caller performs the reads in between. Readings have the type parameter `R`.
use vstd::prelude::*;

use crate::model::clone_opt_string;
use crate::model::sensor::{Fan, LeakDetector, Power, PowerSupply, Sensor, Temperature, TemperatureReading, Thermal, Voltages};
use crate::model::system::Chassis;
use crate::request::{BodyView, Method, Request, RequestView};
use crate::text::{contains, has_infix, str_eq};
use crate::url::{cat3, relative_url, strip_redfish_prefix};

verus! {

/// The chassis whose `Sensors` hold the hot-swap controllers that feed the host.
pub open spec fn pdb_chassis() -> Seq<char> {
    "PDB_0"@
}

/// The chassis whose `Sensors` hold the fans.
pub open spec fn fan_chassis() -> Seq<char> {
    "Chassis_0"@
}

/// The resource the two synthesized power supplies start from: `GET Chassis/PDB_0`.
pub fn power_supply_base_request() -> (r: Request)
    ensures
        r@ == (RequestView { method: Method::Get, url: "Chassis/"@ + pdb_chassis(), body: BodyView::Empty }),
{
    Request::get(crate::url::cat2("Chassis/", "PDB_0"))
}

/// What a sensor read for the power view is for.
#[derive(Clone, Copy, Debug, PartialEq, Eq, Structural)]
pub enum PowerRole {
    Hsc0Power,
    Hsc0Current,
    Hsc1Power,
    Hsc1Current,
    Voltage,
}

/// A sensor to read for the power view: its URL and what it is for.
#[derive(Clone, Debug)]
pub struct PowerFetch {
    pub url: String,
    pub role: PowerRole,
}

impl View for PowerFetch {
    type V = (Seq<char>, PowerRole);

    open spec fn view(&self) -> (Seq<char>, PowerRole) {
        (self.url@, self.role)
    }
}

/// The roles of sensor `m` of a chassis: the four hot-swap controller readings, by the
/// text in the sensor's id, count only on the PDB chassis; a voltage on any chassis.
pub open spec fn member_power_roles(on_pdb: bool, m: Seq<char>) -> Seq<PowerRole> {
    (if on_pdb && has_infix(m, "HSC_0_Pwr"@) { seq![PowerRole::Hsc0Power] } else { seq![] })
        + (if on_pdb && has_infix(m, "HSC_0_Cur"@) { seq![PowerRole::Hsc0Current] } else { seq![] })
        + (if on_pdb && has_infix(m, "HSC_1_Pwr"@) { seq![PowerRole::Hsc1Power] } else { seq![] })
        + (if on_pdb && has_infix(m, "HSC_1_Cur"@) { seq![PowerRole::Hsc1Current] } else { seq![] })
        + (if has_infix(m, "Volt"@) { seq![PowerRole::Voltage] } else { seq![] })
}

/// The power reads for the sensors `members` of chassis `chassis_id`, in order.
pub open spec fn power_fetches(chassis_id: Seq<char>, members: Seq<Seq<char>>) -> Seq<(Seq<char>, PowerRole)>
    decreases members.len(),
{
    if members.len() == 0 {
        seq![]
    } else {
        let m = members.last();
        power_fetches(chassis_id, members.drop_last()) + member_power_roles(chassis_id == pdb_chassis(), m).map_values(
            |r: PowerRole| (strip_redfish_prefix(m), r),
        )
    }
}

/// The plain data of a list of reads.
pub open spec fn power_fetches_view(v: Seq<PowerFetch>) -> Seq<(Seq<char>, PowerRole)> {
    v.map_values(|f: PowerFetch| f@)
}

/// The ids of a list of strings.
pub open spec fn ids_view(v: Seq<String>) -> Seq<Seq<char>> {
    v.map_values(|s: String| s@)
}

fn push_power(out: &mut Vec<PowerFetch>, url: &String, role: PowerRole)
    ensures
        power_fetches_view(final(out)@) == power_fetches_view(old(out)@).push((url@, role)),
{
    let ghost before = out@;
    out.push(PowerFetch { url: url.clone(), role });
    assert(power_fetches_view(out@) =~= power_fetches_view(before).push((url@, role)));
}

/// `GET Chassis/{id}/Sensors` when the chassis has a Sensors subtree.
pub open spec fn sensors_request(chassis_id: Seq<char>, has_sensors: bool) -> Option<RequestView> {
    if has_sensors {
        Some(RequestView { method: Method::Get, url: "Chassis/"@ + chassis_id + "/Sensors"@, body: BodyView::Empty })
    } else {
        None
    }
}

/// The Sensors collection of chassis `chassis_id` to read for the power view, if it has one.
pub fn power_sensors_request(chassis_id: &str, chassis: &Chassis) -> (r: Option<Request>)
    ensures
        match r {
            Some(q) => sensors_request(chassis_id@, chassis.sensors is Some) == Some(q@),
            None => sensors_request(chassis_id@, chassis.sensors is Some) is None,
        },
{
    if chassis.sensors.is_some() {
        Some(Request::get(cat3("Chassis/", chassis_id, "/Sensors")))
    } else {
        None
    }
}

/// Add the power reads of sensor `m` to `out`.
fn push_member_power(out: &mut Vec<PowerFetch>, on_pdb: bool, m: &str)
    ensures
        power_fetches_view(final(out)@) == power_fetches_view(old(out)@) + member_power_roles(on_pdb, m@).map_values(
            |r: PowerRole| (strip_redfish_prefix(m@), r),
        ),
{
    let url = relative_url(m);
    let ghost before = power_fetches_view(out@);
    let ghost roles = member_power_roles(on_pdb, m@);
    let ghost mapped = roles.map_values(|r: PowerRole| (strip_redfish_prefix(m@), r));
    let h0p = on_pdb && contains(m, "HSC_0_Pwr");
    let h0c = on_pdb && contains(m, "HSC_0_Cur");
    let h1p = on_pdb && contains(m, "HSC_1_Pwr");
    let h1c = on_pdb && contains(m, "HSC_1_Cur");
    let volt = contains(m, "Volt");
    if h0p {
        push_power(out, &url, PowerRole::Hsc0Power);
    }
    if h0c {
        push_power(out, &url, PowerRole::Hsc0Current);
    }
    if h1p {
        push_power(out, &url, PowerRole::Hsc1Power);
    }
    if h1c {
        push_power(out, &url, PowerRole::Hsc1Current);
    }
    if volt {
        push_power(out, &url, PowerRole::Voltage);
    }
    assert(power_fetches_view(out@) =~= before + mapped);
}

/// The sensors to read for the power view among `members`, the `@odata.id`s of the
/// Sensors collection of chassis `chassis_id`: on `PDB_0` the hot-swap controllers'
/// power and current, and on every chassis the voltages. URLs are relative.
pub fn power_sensor_fetches(chassis_id: &str, members: &Vec<String>) -> (r: Vec<PowerFetch>)
    ensures
        power_fetches_view(r@) == power_fetches(chassis_id@, ids_view(members@)),
{
    let on_pdb = str_eq(chassis_id, "PDB_0");
    let mut out: Vec<PowerFetch> = Vec::new();
    let n = members.len();
    let mut i: usize = 0;
    while i < n
        invariant
            n == members@.len(),
            i <= n,
            on_pdb == (chassis_id@ == pdb_chassis()),
            power_fetches_view(out@) == power_fetches(chassis_id@, ids_view(members@).subrange(0, i as int)),
        decreases n - i,
    {
        let m = members[i].as_str();
        let ghost before = power_fetches_view(out@);
        push_member_power(&mut out, on_pdb, m);
        let ghost mapped = member_power_roles(on_pdb, m@).map_values(|r: PowerRole| (strip_redfish_prefix(m@), r));
        proof {
            assert(power_fetches_view(out@) =~= before + mapped);
            let pre = ids_view(members@).subrange(0, i + 1);
            assert(pre.drop_last() =~= ids_view(members@).subrange(0, i as int));
            assert(pre.last() == m@);
        }
        i = i + 1;
    }
    assert(ids_view(members@).subrange(0, n as int) =~= ids_view(members@));
    out
}

/// The two supplies and the voltages as the readings so far have left them.
pub open spec fn fold_power<R>(base: PowerSupply<R>, readings: Seq<(PowerRole, Sensor<R>)>) -> (PowerSupply<R>, PowerSupply<R>, Seq<Voltages<R>>)
    decreases readings.len(),
{
    if readings.len() == 0 {
        (base, base, seq![])
    } else {
        let (a, b, v) = fold_power(base, readings.drop_last());
        let (role, t) = readings.last();
        match role {
            PowerRole::Hsc0Power => (PowerSupply {
                last_power_output_watts: t.reading,
                power_output_watts: t.reading,
                power_capacity_watts: t.reading_range_max,
                ..a
            }, b, v),
            PowerRole::Hsc0Current => (PowerSupply { power_output_amps: t.reading, ..a }, b, v),
            PowerRole::Hsc1Power => (a, PowerSupply {
                last_power_output_watts: t.reading,
                power_output_watts: t.reading,
                power_capacity_watts: t.reading_range_max,
                ..b
            }, v),
            PowerRole::Hsc1Current => (a, PowerSupply { power_output_amps: t.reading, ..b }, v),
            PowerRole::Voltage => (a, b, v.push(voltage_of(t))),
        }
    }
}

/// The voltage record of a sensor.
pub open spec fn voltage_of<R>(t: Sensor<R>) -> Voltages<R> {
    Voltages { odata_id: t.odata_id, name: t.name, reading_volts: t.reading, upper_threshold_critical: t.reading_range_max }
}

impl<R: Copy> PowerSupply<R> {
    /// A copy of the record.
    pub fn duplicate(&self) -> (r: PowerSupply<R>)
        ensures
            r == *self,
    {
        PowerSupply {
            odata_id: clone_opt_string(&self.odata_id),
            id: clone_opt_string(&self.id),
            name: clone_opt_string(&self.name),
            last_power_output_watts: self.last_power_output_watts,
            power_output_watts: self.power_output_watts,
            power_capacity_watts: self.power_capacity_watts,
            power_output_amps: self.power_output_amps,
        }
    }
}

/// The power view: two supplies synthesized from the PDB resource `pdb` and the
/// hot-swap controller readings, and the voltage records, each in the order read.
/// `readings` pairs each read sensor with what it was read for.
pub fn assemble_power<R: Copy>(pdb: &PowerSupply<R>, readings: &Vec<(PowerRole, Sensor<R>)>) -> (p: Power<R>)
    ensures
        p.id@ == "Power"@,
        p.name@ == "Power"@,
        p.power_supplies is Some,
        p.power_supplies->Some_0@ == seq![fold_power(*pdb, readings@).0, fold_power(*pdb, readings@).1],
        p.voltages is Some,
        p.voltages->Some_0@ == fold_power(*pdb, readings@).2,
{
    let mut hsc0 = pdb.duplicate();
    let mut hsc1 = pdb.duplicate();
    let mut voltages: Vec<Voltages<R>> = Vec::new();
    let n = readings.len();
    let mut i: usize = 0;
    while i < n
        invariant
            n == readings@.len(),
            i <= n,
            (hsc0, hsc1, voltages@) == fold_power(*pdb, readings@.subrange(0, i as int)),
        decreases n - i,
    {
        let ghost pre = readings@.subrange(0, i + 1);
        assert(pre.drop_last() =~= readings@.subrange(0, i as int));
        let role = readings[i].0;
        let t = &readings[i].1;
        match role {
            PowerRole::Hsc0Power => {
                hsc0.last_power_output_watts = t.reading;
                hsc0.power_output_watts = t.reading;
                hsc0.power_capacity_watts = t.reading_range_max;
            },
            PowerRole::Hsc0Current => {
                hsc0.power_output_amps = t.reading;
            },
            PowerRole::Hsc1Power => {
                hsc1.last_power_output_watts = t.reading;
                hsc1.power_output_watts = t.reading;
                hsc1.power_capacity_watts = t.reading_range_max;
            },
            PowerRole::Hsc1Current => {
                hsc1.power_output_amps = t.reading;
            },
            PowerRole::Voltage => {
                voltages.push(Voltages {
                    odata_id: t.odata_id.clone(),
                    name: clone_opt_string(&t.name),
                    reading_volts: t.reading,
                    upper_threshold_critical: t.reading_range_max,
                });
            },
        }
        i = i + 1;
    }
    assert(readings@.subrange(0, n as int) =~= readings@);
    let mut supplies: Vec<PowerSupply<R>> = Vec::new();
    supplies.push(hsc0);
    supplies.push(hsc1);
    assert(supplies@ =~= seq![fold_power(*pdb, readings@).0, fold_power(*pdb, readings@).1]);
    Power {
        id: String::from_str("Power"),
        name: String::from_str("Power"),
        power_supplies: Some(supplies),
        voltages: Some(voltages),
    }
}

/// What a member read for the thermal view is for.
#[derive(Clone, Copy, Debug, PartialEq, Eq, Structural)]
pub enum ThermalRole {
    Temperature,
    Leak,
    Fan,
}

/// A member to read for the thermal view: its URL and what it is for.
#[derive(Clone, Debug)]
pub struct ThermalFetch {
    pub url: String,
    pub role: ThermalRole,
}

impl View for ThermalFetch {
    type V = (Seq<char>, ThermalRole);

    open spec fn view(&self) -> (Seq<char>, ThermalRole) {
        (self.url@, self.role)
    }
}

/// The plain data of a list of reads.
pub open spec fn thermal_fetches_view(v: Seq<ThermalFetch>) -> Seq<(Seq<char>, ThermalRole)> {
    v.map_values(|f: ThermalFetch| f@)
}

/// The collections of one chassis to read for the thermal view.
#[derive(Clone, Debug)]
pub struct ThermalCollections {
    /// `ThermalSubsystem/ThermalMetrics`, when the chassis has a ThermalSubsystem.
    pub metrics: Option<Request>,
    /// `ThermalSubsystem/LeakDetection/LeakDetectors`, likewise.
    pub leak_detectors: Option<Request>,
    /// `Sensors`, when the chassis has them or holds the fans.
    pub sensors: Option<Request>,
}

/// A GET of `url` as plain data.
pub open spec fn get_view(url: Seq<char>) -> RequestView {
    RequestView { method: Method::Get, url, body: BodyView::Empty }
}

/// An optional request as plain data.
pub open spec fn opt_request_view(r: Option<Request>) -> Option<RequestView> {
    match r {
        Some(q) => Some(q@),
        None => None,
    }
}

/// The collections of chassis `chassis_id` to read for the thermal view.
pub fn thermal_collection_requests(chassis_id: &str, chassis: &Chassis) -> (r: ThermalCollections)
    ensures
        opt_request_view(r.metrics) == (if chassis.thermal_subsystem is Some {
            Some(get_view("Chassis/"@ + chassis_id@ + "/ThermalSubsystem/ThermalMetrics"@))
        } else {
            None
        }),
        opt_request_view(r.leak_detectors) == (if chassis.thermal_subsystem is Some {
            Some(get_view("Chassis/"@ + chassis_id@ + "/ThermalSubsystem/LeakDetection/LeakDetectors"@))
        } else {
            None
        }),
        opt_request_view(r.sensors) == (if chassis.sensors is Some || chassis_id@ == fan_chassis() {
            Some(get_view("Chassis/"@ + chassis_id@ + "/Sensors"@))
        } else {
            None
        }),
{
    let thermal = chassis.thermal_subsystem.is_some();
    let metrics = if thermal {
        Some(Request::get(cat3("Chassis/", chassis_id, "/ThermalSubsystem/ThermalMetrics")))
    } else {
        None
    };
    let leak_detectors = if thermal {
        Some(Request::get(cat3("Chassis/", chassis_id, "/ThermalSubsystem/LeakDetection/LeakDetectors")))
    } else {
        None
    };
    let sensors = if chassis.sensors.is_some() || str_eq(chassis_id, "Chassis_0") {
        Some(Request::get(cat3("Chassis/", chassis_id, "/Sensors")))
    } else {
        None
    };
    ThermalCollections { metrics, leak_detectors, sensors }
}

/// The roles of sensor `m` for the thermal view: a temperature when the chassis has
/// Sensors and the id holds `Temp`; a fan on the fan chassis when the id holds `FAN`.
pub open spec fn member_thermal_roles(has_sensors: bool, on_fan_chassis: bool, m: Seq<char>) -> Seq<ThermalRole> {
    (if has_sensors && has_infix(m, "Temp"@) { seq![ThermalRole::Temperature] } else { seq![] })
        + (if on_fan_chassis && has_infix(m, "FAN"@) { seq![ThermalRole::Fan] } else { seq![] })
}

/// Reads of every leak detector of `members`.
pub open spec fn leak_fetches(members: Seq<Seq<char>>) -> Seq<(Seq<char>, ThermalRole)> {
    members.map_values(|m: Seq<char>| (strip_redfish_prefix(m), ThermalRole::Leak))
}

/// Reads among the sensors `members` for the thermal view, in order.
pub open spec fn sensor_thermal_fetches(has_sensors: bool, on_fan_chassis: bool, members: Seq<Seq<char>>) -> Seq<(Seq<char>, ThermalRole)>
    decreases members.len(),
{
    if members.len() == 0 {
        seq![]
    } else {
        let m = members.last();
        sensor_thermal_fetches(has_sensors, on_fan_chassis, members.drop_last()) + member_thermal_roles(
            has_sensors,
            on_fan_chassis,
            m,
        ).map_values(|r: ThermalRole| (strip_redfish_prefix(m), r))
    }
}

fn push_thermal(out: &mut Vec<ThermalFetch>, url: String, role: ThermalRole)
    ensures
        thermal_fetches_view(final(out)@) == thermal_fetches_view(old(out)@).push((url@, role)),
{
    let ghost before = out@;
    let ghost u = url@;
    out.push(ThermalFetch { url, role });
    assert(thermal_fetches_view(out@) =~= thermal_fetches_view(before).push((u, role)));
}

/// The members to read for the thermal view of chassis `chassis_id`: every leak
/// detector of `leak_members`, then among `sensor_members` the temperatures (when the
/// chassis has Sensors) and the fans (on `Chassis_0`), all by relative URL.
pub fn thermal_member_fetches(
    chassis_id: &str,
    has_sensors: bool,
    leak_members: &Vec<String>,
    sensor_members: &Vec<String>,
) -> (r: Vec<ThermalFetch>)
    ensures
        thermal_fetches_view(r@) == leak_fetches(ids_view(leak_members@)) + sensor_thermal_fetches(
            has_sensors,
            chassis_id@ == fan_chassis(),
            ids_view(sensor_members@),
        ),
{
    let mut out: Vec<ThermalFetch> = Vec::new();
    let n = leak_members.len();
    let mut i: usize = 0;
    while i < n
        invariant
            n == leak_members@.len(),
            i <= n,
            thermal_fetches_view(out@) == leak_fetches(ids_view(leak_members@).subrange(0, i as int)),
        decreases n - i,
    {
        let url = relative_url(leak_members[i].as_str());
        push_thermal(&mut out, url, ThermalRole::Leak);
        assert(leak_fetches(ids_view(leak_members@).subrange(0, i + 1)) =~= leak_fetches(
            ids_view(leak_members@).subrange(0, i as int),
        ).push((strip_redfish_prefix(leak_members@[i as int]@), ThermalRole::Leak)));
        i = i + 1;
    }
    assert(ids_view(leak_members@).subrange(0, n as int) =~= ids_view(leak_members@));
    let ghost leaks = thermal_fetches_view(out@);
    let on_fans = str_eq(chassis_id, "Chassis_0");
    let n = sensor_members.len();
    let mut i: usize = 0;
    while i < n
        invariant
            n == sensor_members@.len(),
            i <= n,
            on_fans == (chassis_id@ == fan_chassis()),
            thermal_fetches_view(out@) == leaks + sensor_thermal_fetches(
                has_sensors,
                on_fans,
                ids_view(sensor_members@).subrange(0, i as int),
            ),
        decreases n - i,
    {
        let m = sensor_members[i].as_str();
        let ghost before = thermal_fetches_view(out@);
        let ghost mapped = member_thermal_roles(has_sensors, on_fans, m@).map_values(
            |r: ThermalRole| (strip_redfish_prefix(m@), r),
        );
        let temp = has_sensors && contains(m, "Temp");
        let fan = on_fans && contains(m, "FAN");
        if temp {
            push_thermal(&mut out, relative_url(m), ThermalRole::Temperature);
        }
        if fan {
            push_thermal(&mut out, relative_url(m), ThermalRole::Fan);
        }
        proof {
            assert(thermal_fetches_view(out@) =~= before + mapped);
            let pre = ids_view(sensor_members@).subrange(0, i + 1);
            assert(pre.drop_last() =~= ids_view(sensor_members@).subrange(0, i as int));
        }
        i = i + 1;
    }
    assert(ids_view(sensor_members@).subrange(0, n as int) =~= ids_view(sensor_members@));
    out
}

/// One thing read for the thermal view.
#[derive(Clone, Debug)]
pub enum ThermalItem<R> {
    /// The temperature readings of a chassis's ThermalMetrics.
    Metrics(Vec<TemperatureReading<R>>),
    /// A sensor read as a temperature.
    Temperature(Sensor<R>),
    /// A leak detector.
    Leak(LeakDetector),
    /// A fan.
    Fan(Fan<R>),
}

/// The temperature records of ThermalMetrics readings.
pub open spec fn metrics_temperatures<R>(v: Seq<TemperatureReading<R>>) -> Seq<Temperature<R>> {
    v.map_values(|t: TemperatureReading<R>| Temperature { name: t.device_name, reading_celsius: t.reading, upper_threshold_critical: None })
}

/// The temperature record of a sensor.
pub open spec fn temperature_of<R>(t: Sensor<R>) -> Temperature<R> {
    Temperature { name: t.name, reading_celsius: t.reading, upper_threshold_critical: t.reading_range_max }
}

/// Temperatures, fans and leak detectors of `items`, each list in the order read.
pub open spec fn fold_thermal<R>(items: Seq<ThermalItem<R>>) -> (Seq<Temperature<R>>, Seq<Fan<R>>, Seq<LeakDetector>)
    decreases items.len(),
{
    if items.len() == 0 {
        (seq![], seq![], seq![])
    } else {
        let (t, f, l) = fold_thermal(items.drop_last());
        match items.last() {
            ThermalItem::Metrics(v) => (t + metrics_temperatures(v@), f, l),
            ThermalItem::Temperature(s) => (t.push(temperature_of(s)), f, l),
            ThermalItem::Leak(d) => (t, f, l.push(d)),
            ThermalItem::Fan(x) => (t, f.push(x), l),
        }
    }
}

impl LeakDetector {
    /// A copy of the record.
    pub fn duplicate(&self) -> (r: LeakDetector)
        ensures
            r == *self,
    {
        LeakDetector {
            odata_id: self.odata_id.clone(),
            name: clone_opt_string(&self.name),
            detector_state: clone_opt_string(&self.detector_state),
        }
    }
}

impl<R: Copy> Fan<R> {
    /// A copy of the record.
    pub fn duplicate(&self) -> (r: Fan<R>)
        ensures
            r == *self,
    {
        Fan {
            odata_id: self.odata_id.clone(),
            name: clone_opt_string(&self.name),
            reading: self.reading,
            reading_units: clone_opt_string(&self.reading_units),
        }
    }
}

/// The thermal view of the items read, in the order read.
pub fn assemble_thermal<R: Copy>(items: &Vec<ThermalItem<R>>) -> (th: Thermal<R>)
    ensures
        th.temperatures@ == fold_thermal(items@).0,
        th.fans@ == fold_thermal(items@).1,
        th.leak_detectors is Some,
        th.leak_detectors->Some_0@ == fold_thermal(items@).2,
{
    let mut temperatures: Vec<Temperature<R>> = Vec::new();
    let mut fans: Vec<Fan<R>> = Vec::new();
    let mut leaks: Vec<LeakDetector> = Vec::new();
    let n = items.len();
    let mut i: usize = 0;
    while i < n
        invariant
            n == items@.len(),
            i <= n,
            (temperatures@, fans@, leaks@) == fold_thermal(items@.subrange(0, i as int)),
        decreases n - i,
    {
        let ghost pre = items@.subrange(0, i + 1);
        assert(pre.drop_last() =~= items@.subrange(0, i as int));
        match &items[i] {
            ThermalItem::Metrics(v) => {
                let ghost start = temperatures@;
                let m = v.len();
                let mut j: usize = 0;
                while j < m
                    invariant
                        m == v@.len(),
                        j <= m,
                        temperatures@ == start + metrics_temperatures(v@.subrange(0, j as int)),
                    decreases m - j,
                {
                    let t = &v[j];
                    temperatures.push(Temperature {
                        name: clone_opt_string(&t.device_name),
                        reading_celsius: t.reading,
                        upper_threshold_critical: None,
                    });
                    assert(metrics_temperatures(v@.subrange(0, j + 1)) =~= metrics_temperatures(
                        v@.subrange(0, j as int),
                    ).push(metrics_temperatures(v@)[j as int]));
                    assert(temperatures@ =~= start + metrics_temperatures(v@.subrange(0, j + 1)));
                    j = j + 1;
                }
                assert(v@.subrange(0, m as int) =~= v@);
            },
            ThermalItem::Temperature(s) => {
                temperatures.push(Temperature {
                    name: clone_opt_string(&s.name),
                    reading_celsius: s.reading,
                    upper_threshold_critical: s.reading_range_max,
                });
            },
            ThermalItem::Leak(d) => {
                leaks.push(d.duplicate());
            },
            ThermalItem::Fan(x) => {
                fans.push(x.duplicate());
            },
        }
        i = i + 1;
    }
    assert(items@.subrange(0, n as int) =~= items@);
    Thermal { temperatures, fans, leak_detectors: Some(leaks) }
}

} // verus!
