use vstd::prelude::*;
use crate::dedup::{filter_new, latest_by_device, latest_of, new_readings};
use crate::errors::DatabaseError;
use crate::models::{
    readings, Device, DeviceList, DeviceView, HueTemperatureData, HueTemperatureList, Reading,
    ReportView, Service, ServiceView, TemperatureData,
};
use crate::polling::{next_step, step, LoopAction, LoopEvent, LoopState};
use crate::storage::Storage;

verus! {

/// A temperature sensor known to the bridge: the resource that carries its
/// values and the display name of the device it belongs to.
#[derive(Debug, PartialEq, Eq)]
pub struct Sensor {
    id: String,
    name: String,
}

/// What a [`Sensor`] stands for.
pub struct SensorView {
    pub id: Seq<char>,
    pub name: Seq<char>,
}

impl View for Sensor {
    type V = SensorView;

    closed spec fn view(&self) -> SensorView {
        SensorView { id: self.id@, name: self.name@ }
    }
}

/// The sensors that a sequence of records stands for.
pub open spec fn sensor_views(sensors: Seq<Sensor>) -> Seq<SensorView> {
    sensors.map_values(|sensor: Sensor| sensor@)
}

/// Whether a capability is the temperature capability.
pub open spec fn is_temperature(service: ServiceView) -> bool {
    service.rtype == "temperature"@
}

/// Whether a device offers the temperature capability.
pub open spec fn has_temperature(device: DeviceView) -> bool {
    exists|i: int| 0 <= i < device.services.len() && is_temperature(#[trigger] device.services[i])
}

/// The resource of the first temperature capability among `services`; the
/// empty string where there is none.
pub open spec fn temperature_resource(services: Seq<ServiceView>) -> Seq<char>
    decreases services.len(),
{
    if services.len() == 0 {
        Seq::empty()
    } else if is_temperature(services[0]) {
        services[0].rid
    } else {
        temperature_resource(services.drop_first())
    }
}

/// The sensor that a device is recorded as.
pub open spec fn sensor_of(device: DeviceView) -> SensorView {
    SensorView { id: temperature_resource(device.services), name: device.name }
}

/// The sensors among `devices`: every device that offers the temperature
/// capability, in the order of the listing.
pub open spec fn sensors_of(devices: Seq<DeviceView>) -> Seq<SensorView> {
    devices.filter(|device: DeviceView| has_temperature(device)).map_values(
        |device: DeviceView| sensor_of(device),
    )
}

/// Whether `found` is the position of the first temperature capability
/// among `services`, or nothing where there is none.
spec fn first_temperature_is(services: Seq<Service>, found: Option<usize>) -> bool {
    match found {
        Some(k) => k < services.len() && is_temperature(services[k as int]@) && forall|j: int|
            0 <= j < k ==> !is_temperature(#[trigger] services[j]@),
        None => forall|j: int| 0 <= j < services.len() ==> !is_temperature(#[trigger] services[j]@),
    }
}

/// Finds the first temperature capability among `services`.
fn first_temperature(services: &Vec<Service>) -> (found: Option<usize>)
    ensures
        first_temperature_is(services@, found),
{
    let wanted = String::from_str("temperature");
    let mut k: usize = 0;
    while k < services.len()
        invariant
            k <= services.len(),
            wanted@ == "temperature"@,
            forall|j: int| 0 <= j < k ==> !is_temperature(#[trigger] services[j]@),
        decreases services.len() - k,
    {
        if services[k].rtype == wanted {
            return Some(k);
        }
        k += 1;
    }
    None
}

/// The first temperature capability decides the resource: where the
/// capabilities before position `k` are of other kinds and the one at `k` is
/// a temperature capability, the resource is that of position `k`; where
/// none is a temperature capability, the resource is empty.
proof fn lemma_temperature_resource(services: Seq<ServiceView>, k: int)
    requires
        0 <= k <= services.len(),
        forall|j: int| 0 <= j < k ==> !is_temperature(#[trigger] services[j]),
        k < services.len() ==> is_temperature(services[k]),
    ensures
        temperature_resource(services) == if k < services.len() {
            services[k].rid
        } else {
            Seq::<char>::empty()
        },
    decreases services.len(),
{
    if services.len() > 0 && k > 0 {
        let rest = services.drop_first();
        lemma_temperature_resource(rest, k - 1);
    }
}

impl Sensor {
    /// A sensor with the given resource and display name.
    pub fn new(id: String, name: String) -> (sensor: Sensor)
        ensures
            sensor@ == (SensorView { id: id@, name: name@ }),
    {
        Sensor { id, name }
    }

    /// The resource that carries this sensor's values.
    pub fn id(&self) -> (id: &String)
        ensures
            id@ == self@.id,
    {
        &self.id
    }

    /// The display name of the device.
    pub fn name(&self) -> (name: &String)
        ensures
            name@ == self@.name,
    {
        &self.name
    }

    /// Records `device` as a sensor under its display name.
    ///
    /// The sensor's resource is that of the device's first temperature
    /// capability. A device without one is recorded with an empty resource,
    /// which no report names.
    pub fn of_device(device: &Device) -> (sensor: Sensor)
        ensures
            sensor@ == sensor_of(device@),
    {
        Sensor::with_resource_at(device, first_temperature(&device.services))
    }

    /// Records `device` with the resource of the capability at `found`.
    fn with_resource_at(device: &Device, found: Option<usize>) -> (sensor: Sensor)
        requires
            first_temperature_is(device.services@, found),
        ensures
            sensor@ == sensor_of(device@),
    {
        let id = match found {
            Some(k) => {
                proof {
                    lemma_temperature_resource(device@.services, k as int);
                }
                device.services[k].rid.clone()
            },
            None => {
                proof {
                    lemma_temperature_resource(device@.services, device.services.len() as int);
                }
                String::new()
            },
        };
        Sensor { id, name: device.metadata.name.clone() }
    }
}

/// Picks the temperature sensors out of the bridge's device listing.
///
/// A device is a sensor when one of its capabilities is of the kind
/// `temperature`. The sensors come in the order of the listing, each with the
/// resource of its first temperature capability and the device's display
/// name.
pub fn get_sensors(devices: &DeviceList) -> (sensors: Vec<Sensor>)
    ensures
        sensor_views(sensors@) == sensors_of(devices@),
{
    let mut sensors: Vec<Sensor> = Vec::new();
    let mut i: usize = 0;
    while i < devices.data.len()
        invariant
            i <= devices.data.len(),
            sensor_views(sensors@) == sensors_of(devices@.take(i as int)),
        decreases devices.data.len() - i,
    {
        let device = &devices.data[i];
        let ghost before = sensor_views(sensors@);
        let ghost wanted = |device: DeviceView| has_temperature(device);
        proof {
            assert(devices@.take(i + 1) =~= devices@.take(i as int).push(device@));
            devices@.take(i as int).lemma_filter_push(device@, wanted);
        }
        let found = first_temperature(&device.services);
        if found.is_some() {
            sensors.push(Sensor::with_resource_at(device, found));
            proof {
                let k = found.unwrap() as int;
                assert(is_temperature(device@.services[k]));
                assert(sensors_of(devices@.take(i + 1)) =~= before.push(sensor_of(device@)));
            }
        }
        i += 1;
    }
    proof {
        assert(devices@.take(i as int) =~= devices@);
    }
    sensors
}

/// The display name under which a report of resource `id` is filed: that of
/// the first sensor with this resource; `Unknown` where no sensor has it.
pub open spec fn device_name_of(id: Seq<char>, sensors: Seq<SensorView>) -> Seq<char>
    decreases sensors.len(),
{
    if sensors.len() == 0 {
        "Unknown"@
    } else if sensors[0].id == id {
        sensors[0].name
    } else {
        device_name_of(id, sensors.drop_first())
    }
}

/// The reading that a report turns into. A device that reports is taken to
/// be online, and no humidity is asked for, so the humidity is zero.
pub open spec fn reading_of(report: ReportView, sensors: Seq<SensorView>) -> Reading {
    Reading {
        device_name: device_name_of(report.id, sensors),
        timestamp: report.changed,
        online: true,
        temperature: report.temperature,
        humidity: 0,
    }
}

/// The readings that a value report turns into: one for each entry, in the
/// order of the report.
pub open spec fn readings_of(reports: Seq<ReportView>, sensors: Seq<SensorView>) -> Seq<Reading> {
    reports.map_values(|report: ReportView| reading_of(report, sensors))
}

/// Where no sensor before position `k` has the resource `id`, the name is
/// that of the sensor at `k`, or `Unknown` where `k` is past the last sensor.
proof fn lemma_device_name_of(id: Seq<char>, sensors: Seq<SensorView>, k: int)
    requires
        0 <= k <= sensors.len(),
        forall|j: int| 0 <= j < k ==> (#[trigger] sensors[j]).id != id,
        k < sensors.len() ==> sensors[k].id == id,
    ensures
        device_name_of(id, sensors) == if k < sensors.len() {
            sensors[k].name
        } else {
            "Unknown"@
        },
    decreases sensors.len(),
{
    if sensors.len() > 0 && k > 0 {
        let rest = sensors.drop_first();
        lemma_device_name_of(id, rest, k - 1);
    }
}

/// Whether `name` is the name under which a report of resource `id` may be
/// filed: that of a sensor with this resource, or `Unknown` where no sensor
/// has it.
pub open spec fn names_resource(sensors: Seq<SensorView>, id: Seq<char>, name: Seq<char>) -> bool {
    if exists|j: int| 0 <= j < sensors.len() && (#[trigger] sensors[j]).id == id {
        exists|j: int| 0 <= j < sensors.len() && (#[trigger] sensors[j]).id == id && sensors[j].name
            == name
    } else {
        name == "Unknown"@
    }
}

/// The name that is looked up for a resource belongs to a sensor with that
/// resource, or is `Unknown` where there is none.
proof fn lemma_name_belongs_to_resource(id: Seq<char>, sensors: Seq<SensorView>)
    ensures
        names_resource(sensors, id, device_name_of(id, sensors)),
    decreases sensors.len(),
{
    if sensors.len() > 0 {
        let rest = sensors.drop_first();
        lemma_name_belongs_to_resource(id, rest);
        if sensors[0].id != id {
            if exists|j: int| 0 <= j < rest.len() && (#[trigger] rest[j]).id == id {
                let j = choose|j: int|
                    0 <= j < rest.len() && (#[trigger] rest[j]).id == id && rest[j].name
                        == device_name_of(id, rest);
                assert(sensors[j + 1] == rest[j]);
            } else {
                assert forall|j: int| 0 <= j < sensors.len() implies (#[trigger] sensors[j]).id
                    != id by {
                    if j > 0 {
                        assert(rest[j - 1] == sensors[j]);
                    }
                }
            }
        }
    }
}

/// No reading is made up. A value report turns into as many readings as it
/// has entries; the reading at each position carries the time and the value
/// of the entry at that position, and the name of a sensor that has the
/// entry's resource, or `Unknown` where no sensor has it. A sensor that the
/// report does not mention gets no reading.
pub proof fn law_readings_follow_report(
    reports: Seq<ReportView>,
    sensors: Seq<SensorView>,
    i: int,
)
    requires
        0 <= i < reports.len(),
    ensures
        readings_of(reports, sensors).len() == reports.len(),
        readings_of(reports, sensors)[i].timestamp == reports[i].changed,
        readings_of(reports, sensors)[i].temperature == reports[i].temperature,
        readings_of(reports, sensors)[i].online,
        readings_of(reports, sensors)[i].humidity == 0,
        names_resource(sensors, reports[i].id, readings_of(reports, sensors)[i].device_name),
{
    lemma_name_belongs_to_resource(reports[i].id, sensors);
}

/// Looks up the display name for the resource `id`.
fn device_name_for(id: &String, sensors: &Vec<Sensor>) -> (name: String)
    ensures
        name@ == device_name_of(id@, sensor_views(sensors@)),
{
    let mut k: usize = 0;
    while k < sensors.len()
        invariant
            k <= sensors.len(),
            forall|j: int| 0 <= j < k ==> (#[trigger] sensor_views(sensors@)[j]).id != id@,
        decreases sensors.len() - k,
    {
        if sensors[k].id == *id {
            proof {
                lemma_device_name_of(id@, sensor_views(sensors@), k as int);
            }
            return sensors[k].name.clone();
        }
        k += 1;
    }
    proof {
        lemma_device_name_of(id@, sensor_views(sensors@), sensors.len() as int);
    }
    String::from_str("Unknown")
}

/// The sensors of one bridge and the sink that their readings go to.
pub struct Sensors<T> {
    bridge_ip_address: String,
    hue_application_key: String,
    sensors: Vec<Sensor>,
    data_store: T,
    state: LoopState,
}

/// What a tick does with the sink's answer to the question for the latest
/// stored readings.
pub enum StorePlan {
    /// The sink failed: the tick ends with this error and writes nothing.
    Abort(DatabaseError),
    /// Nothing is new: the sink is not asked to write.
    Skip,
    /// These readings are new and go to the sink in one batch.
    Save(Vec<TemperatureData>),
}

/// The readings among `temperatures` that are newer than the stored ones
/// that the sink has answered with.
pub open spec fn fresh_readings(temperatures: Seq<Reading>, items: Vec<TemperatureData>) -> Seq<
    Reading,
> {
    new_readings(temperatures, latest_of(readings(items@)))
}

/// Whether `plan` is the plan for `temperatures` when the sink has answered
/// `latest`.
pub open spec fn store_plan_is(
    plan: StorePlan,
    temperatures: Seq<Reading>,
    latest: Result<Vec<TemperatureData>, DatabaseError>,
) -> bool {
    match latest {
        Err(error) => plan == StorePlan::Abort(error),
        Ok(items) => if fresh_readings(temperatures, items).len() == 0 {
            plan is Skip
        } else {
            plan matches StorePlan::Save(batch) && readings(batch@) == fresh_readings(
                temperatures,
                items,
            )
        },
    }
}

/// Decides what to write once the sink has answered the question for the
/// latest stored reading of each device.
///
/// An error of the sink ends the tick with that error. Otherwise the
/// readings that are newer than the stored one of their device are written
/// in one batch, in their order, and where none is newer nothing is written.
pub fn plan_store(
    temperatures: Vec<TemperatureData>,
    latest: Result<Vec<TemperatureData>, DatabaseError>,
) -> (plan: StorePlan)
    ensures
        store_plan_is(plan, readings(temperatures@), latest),
{
    match latest {
        Err(error) => StorePlan::Abort(error),
        Ok(items) => {
            let reference = latest_by_device(&items);
            let fresh = filter_new(temperatures, &reference);
            if fresh.is_empty() {
                StorePlan::Skip
            } else {
                StorePlan::Save(fresh)
            }
        },
    }
}

impl<T> Sensors<T> {
    /// The address under which the bridge answers.
    pub closed spec fn address(&self) -> Seq<char> {
        self.bridge_ip_address@
    }

    /// The credential that every request to the bridge carries.
    pub closed spec fn application_key(&self) -> Seq<char> {
        self.hue_application_key@
    }

    /// The temperature sensors of the bridge.
    pub closed spec fn known_sensors(&self) -> Seq<SensorView> {
        sensor_views(self.sensors@)
    }

    /// The sink that the readings go to.
    pub closed spec fn sink(&self) -> T {
        self.data_store
    }

    /// Where the polling loop stands.
    pub closed spec fn loop_state(&self) -> LoopState {
        self.state
    }

    /// Sets up the poller for the bridge at `bridge_ip_address` from the
    /// bridge's device listing: the sensors are those that
    /// [`get_sensors`] picks out of `devices`.
    pub fn new(
        bridge_ip_address: String,
        hue_application_key: &str,
        devices: &DeviceList,
        data_store: T,
    ) -> (sensors: Sensors<T>)
        ensures
            sensors.address() == bridge_ip_address@,
            sensors.application_key() == hue_application_key@,
            sensors.known_sensors() == sensors_of(devices@),
            sensors.sink() == data_store,
            sensors.loop_state() == LoopState::Idle,
    {
        Sensors {
            bridge_ip_address,
            hue_application_key: String::from_str(hue_application_key),
            sensors: get_sensors(devices),
            data_store,
            state: LoopState::Idle,
        }
    }

    /// The address under which the bridge answers.
    pub fn bridge_ip_address(&self) -> (address: &String)
        ensures
            address@ == self.address(),
    {
        &self.bridge_ip_address
    }

    /// The credential that every request to the bridge carries.
    pub fn hue_application_key(&self) -> (key: &String)
        ensures
            key@ == self.application_key(),
    {
        &self.hue_application_key
    }

    /// The temperature sensors of the bridge.
    pub fn sensors(&self) -> (sensors: &Vec<Sensor>)
        ensures
            sensor_views(sensors@) == self.known_sensors(),
    {
        &self.sensors
    }

    /// The sink that the readings go to.
    pub fn data_store(&self) -> (sink: &T)
        ensures
            *sink == self.sink(),
    {
        &self.data_store
    }

    /// Where the polling loop stands.
    pub fn state(&self) -> (state: LoopState)
        ensures
            state == self.loop_state(),
    {
        self.state
    }

    /// Whether one of the sensors has the resource `id`. A report of any
    /// other resource is filed as `Unknown`.
    pub fn has_sensor(&self, id: &String) -> (known: bool)
        ensures
            known == exists|j: int|
                0 <= j < self.known_sensors().len() && (#[trigger] self.known_sensors()[j]).id
                    == id@,
    {
        let mut k: usize = 0;
        while k < self.sensors.len()
            invariant
                k <= self.sensors.len(),
                forall|j: int| 0 <= j < k ==> (#[trigger] self.known_sensors()[j]).id != id@,
            decreases self.sensors.len() - k,
        {
            if self.sensors[k].id == *id {
                assert(self.known_sensors()[k as int].id == id@);
                return true;
            }
            k += 1;
        }
        false
    }

    /// Runs the polling loop by one step: takes what the owner of the loop
    /// reports, moves to the state that [`next_step`] gives, and answers with
    /// what the owner is to do next. Nothing else about the poller changes.
    pub fn run(&mut self, event: LoopEvent) -> (action: LoopAction)
        ensures
            (final(self).loop_state(), action) == next_step(old(self).loop_state(), event),
            final(self).address() == old(self).address(),
            final(self).application_key() == old(self).application_key(),
            final(self).known_sensors() == old(self).known_sensors(),
            final(self).sink() == old(self).sink(),
    {
        let (state, action) = step(self.state, event);
        self.state = state;
        action
    }

    /// Turns the bridge's value report into readings, one for each entry and
    /// in the order of the report.
    ///
    /// A reading carries the display name of the first sensor with the
    /// entry's resource, or `Unknown` where no sensor has it; the time and
    /// the value of the entry; `online`; and a humidity of zero.
    pub fn get_temperatures(&self, body: &HueTemperatureList) -> (temperatures: Vec<
        TemperatureData,
    >)
        ensures
            readings(temperatures@) == readings_of(body@, self.known_sensors()),
    {
        let mut temperatures: Vec<TemperatureData> = Vec::new();
        let mut i: usize = 0;
        while i < body.data.len()
            invariant
                i <= body.data.len(),
                temperatures.len() == i,
                forall|j: int|
                    0 <= j < i ==> (#[trigger] temperatures[j])@ == reading_of(
                        body@[j],
                        self.known_sensors(),
                    ),
            decreases body.data.len() - i,
        {
            let report: &HueTemperatureData = &body.data[i];
            let reading = TemperatureData {
                device_name: device_name_for(&report.id, &self.sensors),
                timestamp: report.temperature.temperature_report.changed,
                online: true,
                temperature: report.temperature.temperature_report.temperature,
                humidity: 0,
            };
            temperatures.push(reading);
            i += 1;
        }
        temperatures
    }
}

impl<T: Storage<TemperatureData, Error = DatabaseError>> Sensors<T> {
    /// Writes the readings that are not stored yet.
    ///
    /// Asks the sink for the latest stored reading of each device, grouped by
    /// `device_name` and ordered by `timestamp`, and follows the plan that
    /// [`plan_store`] makes from the answer: an error of the sink is handed
    /// on, the new readings go to the sink in one batch and its answer is
    /// handed on, and where nothing is new the sink is not asked to write.
    pub fn store_temperatures(&self, temperatures: Vec<TemperatureData>) -> (outcome: Result<
        (),
        DatabaseError,
    >)
        ensures
            tick_outcome(self.sink(), readings(temperatures@), outcome),
    {
        let latest = self.data_store.get_latest_items("device_name", "timestamp");
        let ghost answer = latest;
        match plan_store(temperatures, latest) {
            StorePlan::Abort(error) => {
                proof {
                    assert(tick_follows(self.sink(), readings(temperatures@), answer, Err(error)));
                }
                Err(error)
            },
            StorePlan::Skip => {
                proof {
                    assert(tick_follows(self.sink(), readings(temperatures@), answer, Ok(())));
                }
                Ok(())
            },
            StorePlan::Save(batch) => {
                let outcome = self.data_store.save_items(batch.as_slice());
                proof {
                    assert(batch_goes(self.sink(), batch@, answer, readings(temperatures@), outcome));
                    assert(tick_follows(self.sink(), readings(temperatures@), answer, outcome));
                }
                outcome
            },
        }
    }
}

/// Whether `batch` holds the new readings and `outcome` is a possible answer
/// of the sink to the request to save it.
pub open spec fn batch_goes<T: Storage<TemperatureData, Error = DatabaseError>>(
    sink: T,
    batch: Seq<TemperatureData>,
    latest: Result<Vec<TemperatureData>, DatabaseError>,
    temperatures: Seq<Reading>,
    outcome: Result<(), DatabaseError>,
) -> bool {
    &&& latest is Ok
    &&& readings(batch) == fresh_readings(temperatures, latest->Ok_0)
    &&& sink.may_save_items(batch, outcome)
}

/// Whether a tick that got `latest` from the sink may end with `outcome`.
pub open spec fn tick_follows<T: Storage<TemperatureData, Error = DatabaseError>>(
    sink: T,
    temperatures: Seq<Reading>,
    latest: Result<Vec<TemperatureData>, DatabaseError>,
    outcome: Result<(), DatabaseError>,
) -> bool {
    &&& sink.may_get_latest_items("device_name"@, "timestamp"@, latest)
    &&& match latest {
        Err(error) => outcome == Err::<(), DatabaseError>(error),
        Ok(items) => if fresh_readings(temperatures, items).len() == 0 {
            outcome is Ok
        } else {
            exists|batch: Seq<TemperatureData>|
                #[trigger] batch_goes(sink, batch, latest, temperatures, outcome)
        },
    }
}

/// Whether `outcome` is a possible end of a tick that is to store
/// `temperatures` in `sink`: the sink has answered the question for the
/// latest stored readings, grouped by `device_name` and ordered by
/// `timestamp`, and
/// - its error is the outcome; or
/// - none of `temperatures` is newer than what it answered with, and the
///   outcome is success without a write; or
/// - the outcome is the sink's answer to the request to save the new
///   readings, all of them and in their order.
pub open spec fn tick_outcome<T: Storage<TemperatureData, Error = DatabaseError>>(
    sink: T,
    temperatures: Seq<Reading>,
    outcome: Result<(), DatabaseError>,
) -> bool {
    exists|latest: Result<Vec<TemperatureData>, DatabaseError>| #[trigger]
        tick_follows(sink, temperatures, latest, outcome)
}

} // verus!
