use vstd::prelude::*;

verus! {

/// A point in time on the UTC time line: whole seconds since the Unix epoch
/// and the nanoseconds into that second.
///
/// Two timestamps are ordered by their seconds first and by their
/// nanoseconds second. A nanosecond count of a billion or more stands for a
/// leap second, which therefore sorts after every ordinary instant of the
/// same second and before the next one.
#[derive(Clone, Copy, Debug, PartialEq, Eq, Structural)]
pub struct Timestamp {
    pub seconds: i64,
    pub nanoseconds: u32,
}

impl Timestamp {
    /// Whether `self` lies strictly before `other`.
    pub open spec fn precedes(self, other: Timestamp) -> bool {
        self.seconds < other.seconds || (self.seconds == other.seconds && self.nanoseconds
            < other.nanoseconds)
    }

    /// Compares two timestamps: `true` exactly when `self` is the earlier one.
    pub fn is_before(&self, other: &Timestamp) -> (earlier: bool)
        ensures
            earlier == self.precedes(*other),
    {
        self.seconds < other.seconds || (self.seconds == other.seconds && self.nanoseconds
            < other.nanoseconds)
    }
}

/// Time is ordered strictly and in full: no timestamp precedes itself, the
/// order passes on from one pair to the next, and of two different
/// timestamps exactly one precedes the other.
pub proof fn law_time_is_ordered(a: Timestamp, b: Timestamp, c: Timestamp)
    ensures
        !a.precedes(a),
        a.precedes(b) && b.precedes(c) ==> a.precedes(c),
        a.precedes(b) ==> !b.precedes(a),
        a != b ==> a.precedes(b) || b.precedes(a),
{
}

/// One entry of the discovery service's answer: a bridge and the address
/// under which it answers on the local network.
#[derive(Debug, PartialEq, Eq)]
pub struct HueBridge {
    pub internalipaddress: String,
}

impl View for HueBridge {
    type V = Seq<char>;

    open spec fn view(&self) -> Seq<char> {
        self.internalipaddress@
    }
}

/// The display data of a device.
#[derive(Debug, PartialEq, Eq)]
pub struct Metadata {
    pub name: String,
}

impl View for Metadata {
    type V = Seq<char>;

    open spec fn view(&self) -> Seq<char> {
        self.name@
    }
}

/// A capability that a device offers: the resource that carries its values
/// and the kind of capability.
#[derive(Debug, PartialEq, Eq)]
pub struct Service {
    pub rid: String,
    pub rtype: String,
}

/// What a [`Service`] stands for.
pub struct ServiceView {
    pub rid: Seq<char>,
    pub rtype: Seq<char>,
}

impl View for Service {
    type V = ServiceView;

    open spec fn view(&self) -> ServiceView {
        ServiceView { rid: self.rid@, rtype: self.rtype@ }
    }
}

/// A device as the bridge lists it.
#[derive(Debug, PartialEq, Eq)]
pub struct Device {
    pub metadata: Metadata,
    pub services: Vec<Service>,
}

/// What a [`Device`] stands for: its display name and its capabilities in
/// the order in which the bridge lists them.
pub struct DeviceView {
    pub name: Seq<char>,
    pub services: Seq<ServiceView>,
}

impl View for Device {
    type V = DeviceView;

    open spec fn view(&self) -> DeviceView {
        DeviceView {
            name: self.metadata@,
            services: self.services@.map_values(|service: Service| service@),
        }
    }
}

/// The body of the bridge's device listing.
#[derive(Debug, PartialEq, Eq)]
pub struct DeviceList {
    pub data: Vec<Device>,
}

impl View for DeviceList {
    type V = Seq<DeviceView>;

    open spec fn view(&self) -> Seq<DeviceView> {
        self.data@.map_values(|device: Device| device@)
    }
}

/// The value of a temperature resource and the time at which it last changed.
///
/// `temperature` is the IEEE 754 single-precision bit pattern of the value in
/// degrees Celsius. The library carries measurements and never computes with
/// them.
#[derive(Debug, PartialEq, Eq)]
pub struct TemperatureReport {
    pub changed: Timestamp,
    pub temperature: u32,
}

/// The temperature capability of a resource: its current report.
#[derive(Debug, PartialEq, Eq)]
pub struct Temperature {
    pub temperature_report: TemperatureReport,
}

/// One entry of the bridge's value report: a temperature resource and its
/// current value.
#[derive(Debug, PartialEq, Eq)]
pub struct HueTemperatureData {
    pub id: String,
    pub temperature: Temperature,
}

/// What a [`HueTemperatureData`] stands for.
pub struct ReportView {
    pub id: Seq<char>,
    pub changed: Timestamp,
    pub temperature: u32,
}

impl View for HueTemperatureData {
    type V = ReportView;

    open spec fn view(&self) -> ReportView {
        ReportView {
            id: self.id@,
            changed: self.temperature.temperature_report.changed,
            temperature: self.temperature.temperature_report.temperature,
        }
    }
}

/// The body of the bridge's value report.
#[derive(Debug, PartialEq, Eq)]
pub struct HueTemperatureList {
    pub data: Vec<HueTemperatureData>,
}

impl View for HueTemperatureList {
    type V = Seq<ReportView>;

    open spec fn view(&self) -> Seq<ReportView> {
        self.data@.map_values(|report: HueTemperatureData| report@)
    }
}

/// A normalized measurement of one sensor.
///
/// `temperature` and `humidity` are IEEE 754 single-precision bit patterns,
/// in degrees Celsius and in percent.
#[derive(Debug, PartialEq, Eq)]
pub struct TemperatureData {
    pub device_name: String,
    pub timestamp: Timestamp,
    pub online: bool,
    pub temperature: u32,
    pub humidity: u32,
}

/// What a [`TemperatureData`] stands for.
pub struct Reading {
    pub device_name: Seq<char>,
    pub timestamp: Timestamp,
    pub online: bool,
    pub temperature: u32,
    pub humidity: u32,
}

impl View for TemperatureData {
    type V = Reading;

    open spec fn view(&self) -> Reading {
        Reading {
            device_name: self.device_name@,
            timestamp: self.timestamp,
            online: self.online,
            temperature: self.temperature,
            humidity: self.humidity,
        }
    }
}

impl Clone for TemperatureData {
    fn clone(&self) -> (copy: TemperatureData)
        ensures
            copy@ == self@,
    {
        TemperatureData {
            device_name: self.device_name.clone(),
            timestamp: self.timestamp,
            online: self.online,
            temperature: self.temperature,
            humidity: self.humidity,
        }
    }
}

/// The readings that a sequence of records stands for.
pub open spec fn readings(items: Seq<TemperatureData>) -> Seq<Reading> {
    items.map_values(|item: TemperatureData| item@)
}

} // verus!
