use std::cell::RefCell;

use rust_backend::errors::DatabaseError;
use rust_backend::models::{
    Device, DeviceList, HueTemperatureData, HueTemperatureList, Metadata, Service, Temperature,
    TemperatureData, TemperatureReport, Timestamp,
};
use rust_backend::polling::{LoopAction, LoopEvent, LoopState};
use rust_backend::sensors::{get_sensors, plan_store, Sensor, Sensors, StorePlan};
use rust_backend::storage::Storage;

const ID_A: &str = "7f1f1d0c-0000-4000-8000-00000000000a";
const ID_B: &str = "7f1f1d0c-0000-4000-8000-00000000000b";

fn service(rid: &str, rtype: &str) -> Service {
    Service { rid: rid.to_string(), rtype: rtype.to_string() }
}

fn device(name: &str, services: Vec<Service>) -> Device {
    Device { metadata: Metadata { name: name.to_string() }, services }
}

fn report(id: &str, seconds: i64, degrees: f32) -> HueTemperatureData {
    HueTemperatureData {
        id: id.to_string(),
        temperature: Temperature {
            temperature_report: TemperatureReport {
                changed: Timestamp { seconds, nanoseconds: 0 },
                temperature: degrees.to_bits(),
            },
        },
    }
}

fn reading(device_name: &str, seconds: i64, degrees: f32) -> TemperatureData {
    TemperatureData {
        device_name: device_name.to_string(),
        timestamp: Timestamp { seconds, nanoseconds: 0 },
        online: true,
        temperature: degrees.to_bits(),
        humidity: 0,
    }
}

fn two_sensors() -> DeviceList {
    DeviceList {
        data: vec![
            device("Bedroom", vec![service("m1", "motion"), service(ID_A, "temperature")]),
            device("Kitchen", vec![service(ID_B, "temperature")]),
        ],
    }
}

/// A sink that answers from a script and remembers what it was asked.
struct ScriptedSink {
    latest: RefCell<Option<Result<Vec<TemperatureData>, DatabaseError>>>,
    save_fails: bool,
    questions: RefCell<Vec<(String, String)>>,
    batches: RefCell<Vec<Vec<TemperatureData>>>,
}

impl ScriptedSink {
    fn answering(latest: Result<Vec<TemperatureData>, DatabaseError>) -> ScriptedSink {
        ScriptedSink {
            latest: RefCell::new(Some(latest)),
            save_fails: false,
            questions: RefCell::new(Vec::new()),
            batches: RefCell::new(Vec::new()),
        }
    }
}

impl Storage<TemperatureData> for ScriptedSink {
    type Error = DatabaseError;

    fn save_item(&self, data: &TemperatureData) -> Result<(), DatabaseError> {
        self.batches.borrow_mut().push(vec![data.clone()]);
        Ok(())
    }

    fn save_items(&self, data: &[TemperatureData]) -> Result<(), DatabaseError> {
        self.batches.borrow_mut().push(data.to_vec());
        if self.save_fails {
            Err(DatabaseError::MongoDB(mongodb::error::Error::custom("write refused")))
        } else {
            Ok(())
        }
    }

    fn get_latest_items(
        &self,
        name_field: &str,
        timestamp_field: &str,
    ) -> Result<Vec<TemperatureData>, DatabaseError> {
        self.questions.borrow_mut().push((name_field.to_string(), timestamp_field.to_string()));
        self.latest.borrow_mut().take().unwrap_or(Ok(Vec::new()))
    }
}

fn poller(sink: ScriptedSink) -> Sensors<ScriptedSink> {
    Sensors::new("192.168.1.20".to_string(), "key", &two_sensors(), sink)
}

#[test]
fn only_temperature_devices_are_sensors() {
    let devices = DeviceList {
        data: vec![
            device("Hallway lamp", vec![service("l1", "light"), service("z1", "zigbee")]),
            device("Bedroom", vec![service("m1", "motion"), service(ID_A, "temperature")]),
            device("Plug", Vec::new()),
            device("Kitchen", vec![service(ID_B, "temperature"), service("x", "temperature")]),
        ],
    };
    let sensors = get_sensors(&devices);
    assert_eq!(
        sensors,
        vec![
            Sensor::new(ID_A.to_string(), "Bedroom".to_string()),
            Sensor::new(ID_B.to_string(), "Kitchen".to_string()),
        ]
    );
    assert_eq!(sensors[0].id(), ID_A);
    assert_eq!(sensors[0].name(), "Bedroom");
}

#[test]
fn capability_kind_is_matched_exactly() {
    let devices = DeviceList {
        data: vec![
            device("Upper", vec![service("a", "Temperature")]),
            device("Longer", vec![service("b", "temperature ")]),
            device("Shorter", vec![service("c", "temperatur")]),
            device("Empty", vec![service("d", "")]),
        ],
    };
    assert!(get_sensors(&devices).is_empty());
    assert!(get_sensors(&DeviceList { data: Vec::new() }).is_empty());
}

#[test]
fn device_without_temperature_service_gets_an_empty_id() {
    let sensor = Sensor::of_device(&device("Plug", vec![service("l1", "light")]));
    assert_eq!(sensor, Sensor::new(String::new(), "Plug".to_string()));
    let sensor = Sensor::of_device(&device("Bedroom", vec![service(ID_A, "temperature")]));
    assert_eq!(sensor, Sensor::new(ID_A.to_string(), "Bedroom".to_string()));
}

#[test]
fn report_for_one_of_two_sensors_gives_one_reading() {
    let sensors = poller(ScriptedSink::answering(Ok(Vec::new())));
    let body = HueTemperatureList { data: vec![report(ID_A, 1_700_000_000, 21.5)] };
    let readings = sensors.get_temperatures(&body);
    assert_eq!(readings, vec![reading("Bedroom", 1_700_000_000, 21.5)]);
    assert_eq!(readings.len(), 1);
    assert!(readings.iter().all(|reading| reading.device_name != "Kitchen"));
}

#[test]
fn report_of_unknown_resource_is_filed_as_unknown() {
    let sensors = poller(ScriptedSink::answering(Ok(Vec::new())));
    let body = HueTemperatureList { data: vec![report("no-such-resource", 42, 19.0)] };
    let readings = sensors.get_temperatures(&body);
    assert_eq!(readings.len(), 1);
    assert_eq!(readings[0].device_name, "Unknown");
    assert_eq!(readings[0].timestamp, Timestamp { seconds: 42, nanoseconds: 0 });
    assert_eq!(f32::from_bits(readings[0].temperature), 19.0);
}

#[test]
fn every_reading_is_online_with_zero_humidity() {
    let sensors = poller(ScriptedSink::answering(Ok(Vec::new())));
    let body = HueTemperatureList {
        data: vec![report(ID_B, 7, -3.25), report(ID_A, 8, 0.0), report("", 9, 40.0)],
    };
    let readings = sensors.get_temperatures(&body);
    assert_eq!(
        readings.iter().map(|reading| reading.device_name.as_str()).collect::<Vec<&str>>(),
        vec!["Kitchen", "Bedroom", "Unknown"]
    );
    for reading in &readings {
        assert!(reading.online);
        assert_eq!(f32::from_bits(reading.humidity), 0.0);
        assert_eq!(reading.humidity, 0);
    }
    assert_eq!(f32::from_bits(readings[0].temperature), -3.25);
    assert!(sensors.get_temperatures(&HueTemperatureList { data: Vec::new() }).is_empty());
}

#[test]
fn first_sensor_with_the_resource_names_the_reading() {
    let devices = DeviceList {
        data: vec![
            device("First", vec![service(ID_A, "temperature")]),
            device("Second", vec![service(ID_A, "temperature")]),
        ],
    };
    let sensors = Sensors::new(
        "hue-bridge".to_string(),
        "key",
        &devices,
        ScriptedSink::answering(Ok(Vec::new())),
    );
    let readings = sensors.get_temperatures(&HueTemperatureList { data: vec![report(ID_A, 1, 1.0)] });
    assert_eq!(readings[0].device_name, "First");
}

#[test]
fn poller_knows_the_resources_of_its_sensors() {
    let sensors = poller(ScriptedSink::answering(Ok(Vec::new())));
    assert!(sensors.has_sensor(&ID_A.to_string()));
    assert!(sensors.has_sensor(&ID_B.to_string()));
    assert!(!sensors.has_sensor(&"no-such-resource".to_string()));
    assert!(!sensors.has_sensor(&String::new()));
}

#[test]
fn new_poller_holds_what_it_was_given() {
    let sensors = poller(ScriptedSink::answering(Ok(Vec::new())));
    assert_eq!(sensors.bridge_ip_address(), "192.168.1.20");
    assert_eq!(sensors.hue_application_key(), "key");
    assert_eq!(sensors.sensors().len(), 2);
    assert_eq!(sensors.sensors()[1], Sensor::new(ID_B.to_string(), "Kitchen".to_string()));
    assert_eq!(sensors.state(), LoopState::Idle);
    assert!(!sensors.data_store().save_fails);
}

#[test]
fn tick_stores_only_what_is_new() {
    let stored = vec![reading("Bedroom", 100, 20.0), reading("Kitchen", 100, 18.0)];
    let sensors = poller(ScriptedSink::answering(Ok(stored)));
    let fetched = vec![
        reading("Bedroom", 100, 20.0),
        reading("Kitchen", 160, 18.5),
        reading("Attic", 1, 5.0),
    ];
    assert!(sensors.store_temperatures(fetched).is_ok());
    let sink = sensors.data_store();
    assert_eq!(
        *sink.questions.borrow(),
        vec![("device_name".to_string(), "timestamp".to_string())]
    );
    assert_eq!(
        *sink.batches.borrow(),
        vec![vec![reading("Kitchen", 160, 18.5), reading("Attic", 1, 5.0)]]
    );
}

#[test]
fn tick_without_new_readings_does_not_write() {
    let stored = vec![reading("Bedroom", 100, 20.0)];
    let sensors = poller(ScriptedSink::answering(Ok(stored)));
    let fetched = vec![reading("Bedroom", 100, 20.0), reading("Bedroom", 99, 19.0)];
    assert!(sensors.store_temperatures(fetched).is_ok());
    assert_eq!(sensors.data_store().questions.borrow().len(), 1);
    assert!(sensors.data_store().batches.borrow().is_empty());
}

#[test]
fn tick_with_nothing_fetched_does_not_write() {
    let sensors = poller(ScriptedSink::answering(Ok(Vec::new())));
    assert!(sensors.store_temperatures(Vec::new()).is_ok());
    assert!(sensors.data_store().batches.borrow().is_empty());
}

#[test]
fn tick_hands_on_the_error_of_the_question() {
    let failure = DatabaseError::MongoDB(mongodb::error::Error::custom("unreachable"));
    let sensors = poller(ScriptedSink::answering(Err(failure)));
    let outcome = sensors.store_temperatures(vec![reading("Bedroom", 1, 1.0)]);
    match outcome {
        Err(DatabaseError::MongoDB(error)) => {
            assert_eq!(error.get_custom::<&str>(), Some(&"unreachable"));
        }
        Ok(()) => panic!("the error of the sink was lost"),
    }
    assert!(sensors.data_store().batches.borrow().is_empty());
}

#[test]
fn tick_hands_on_the_error_of_the_write() {
    let mut sink = ScriptedSink::answering(Ok(Vec::new()));
    sink.save_fails = true;
    let sensors = poller(sink);
    let outcome = sensors.store_temperatures(vec![reading("Bedroom", 1, 1.0)]);
    assert!(matches!(outcome, Err(DatabaseError::MongoDB(_))));
    assert_eq!(sensors.data_store().batches.borrow().len(), 1);
}

#[test]
fn repeated_tick_of_an_unchanged_value_writes_once() {
    let sensors = poller(ScriptedSink::answering(Ok(Vec::new())));
    assert!(sensors.store_temperatures(vec![reading("Bedroom", 100, 20.0)]).is_ok());
    *sensors.data_store().latest.borrow_mut() = Some(Ok(vec![reading("Bedroom", 100, 20.0)]));
    assert!(sensors.store_temperatures(vec![reading("Bedroom", 100, 20.0)]).is_ok());
    assert_eq!(sensors.data_store().batches.borrow().len(), 1);
}

#[test]
fn plan_follows_the_answer_of_the_sink() {
    let failure = DatabaseError::MongoDB(mongodb::error::Error::custom("down"));
    assert!(matches!(
        plan_store(vec![reading("Bedroom", 1, 1.0)], Err(failure)),
        StorePlan::Abort(DatabaseError::MongoDB(_))
    ));
    assert!(matches!(
        plan_store(vec![reading("Bedroom", 1, 1.0)], Ok(vec![reading("Bedroom", 1, 1.0)])),
        StorePlan::Skip
    ));
    assert!(matches!(plan_store(Vec::new(), Ok(Vec::new())), StorePlan::Skip));
    match plan_store(vec![reading("Bedroom", 2, 1.5)], Ok(vec![reading("Bedroom", 1, 1.0)])) {
        StorePlan::Save(batch) => assert_eq!(batch, vec![reading("Bedroom", 2, 1.5)]),
        _ => panic!("the new reading was not planned for"),
    }
}

#[test]
fn poller_runs_a_tick_through_its_states() {
    let mut sensors = poller(ScriptedSink::answering(Ok(Vec::new())));
    assert_eq!(sensors.run(LoopEvent::CycleBoundary { cancelled: false }), LoopAction::Fetch);
    assert_eq!(sensors.state(), LoopState::Polling);
    assert_eq!(sensors.run(LoopEvent::Fetched), LoopAction::Store);
    assert_eq!(sensors.state(), LoopState::Storing);
    assert_eq!(sensors.run(LoopEvent::StoreFailed), LoopAction::Sleep { seconds: 1 });
    assert_eq!(sensors.state(), LoopState::Sleeping);
    assert_eq!(sensors.run(LoopEvent::CycleBoundary { cancelled: true }), LoopAction::Stop);
    assert_eq!(sensors.state(), LoopState::Stopped);
    assert_eq!(sensors.bridge_ip_address(), "192.168.1.20");
    assert_eq!(sensors.sensors().len(), 2);
}
