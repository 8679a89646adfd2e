use vstd::prelude::*;
use vstd::hash_map::StringHashMap;
use crate::models::{readings, Reading, TemperatureData, Timestamp};

verus! {

/// For each device, the time of its most recent stored reading.
pub struct LatestByDevice {
    latest: StringHashMap<Timestamp>,
}

impl View for LatestByDevice {
    type V = Map<Seq<char>, Timestamp>;

    closed spec fn view(&self) -> Map<Seq<char>, Timestamp> {
        self.latest@
    }
}

/// The map that recording `items` one after the other gives: each device
/// with the time of the last item that names it.
pub open spec fn latest_of(items: Seq<Reading>) -> Map<Seq<char>, Timestamp>
    decreases items.len(),
{
    if items.len() == 0 {
        Map::empty()
    } else {
        latest_of(items.drop_last()).insert(items.last().device_name, items.last().timestamp)
    }
}

/// Whether a reading is newer than what is stored: its device has no
/// recorded time, or its time lies strictly after the recorded one.
pub open spec fn is_new(reading: Reading, latest: Map<Seq<char>, Timestamp>) -> bool {
    !latest.dom().contains(reading.device_name) || latest[reading.device_name].precedes(
        reading.timestamp,
    )
}

/// The candidates that are newer than what is stored, in their order.
pub open spec fn new_readings(candidates: Seq<Reading>, latest: Map<Seq<char>, Timestamp>) -> Seq<
    Reading,
> {
    candidates.filter(|reading: Reading| is_new(reading, latest))
}

impl LatestByDevice {
    /// A map that knows no device.
    pub fn new() -> (empty: LatestByDevice)
        ensures
            empty@ == Map::<Seq<char>, Timestamp>::empty(),
    {
        LatestByDevice { latest: StringHashMap::new() }
    }

    /// Records `timestamp` as the latest time of `device_name`, in place of
    /// any time recorded for it before.
    pub fn record(&mut self, device_name: String, timestamp: Timestamp)
        ensures
            final(self)@ == old(self)@.insert(device_name@, timestamp),
    {
        self.latest.insert(device_name, timestamp);
    }

    /// The time recorded for `device_name`, if there is one.
    pub fn get(&self, device_name: &str) -> (recorded: Option<Timestamp>)
        ensures
            recorded == if self@.dom().contains(device_name@) {
                Some(self@[device_name@])
            } else {
                None
            },
    {
        match self.latest.get(device_name) {
            Some(timestamp) => Some(*timestamp),
            None => None,
        }
    }

    /// Whether `reading` is newer than what this map records for its device.
    pub fn admits(&self, reading: &TemperatureData) -> (newer: bool)
        ensures
            newer == is_new(reading@, self@),
    {
        match self.latest.get(reading.device_name.as_str()) {
            Some(recorded) => recorded.is_before(&reading.timestamp),
            None => true,
        }
    }
}

/// Builds the reference map for one tick out of the most recent stored
/// reading of each device.
pub fn latest_by_device(items: &Vec<TemperatureData>) -> (latest: LatestByDevice)
    ensures
        latest@ == latest_of(readings(items@)),
{
    let mut latest = LatestByDevice::new();
    let mut i: usize = 0;
    while i < items.len()
        invariant
            i <= items.len(),
            latest@ == latest_of(readings(items@).take(i as int)),
        decreases items.len() - i,
    {
        proof {
            let next = readings(items@).take(i + 1);
            assert(next.drop_last() =~= readings(items@).take(i as int));
        }
        latest.record(items[i].device_name.clone(), items[i].timestamp);
        i += 1;
    }
    proof {
        assert(readings(items@).take(i as int) =~= readings(items@));
    }
    latest
}

/// Drops the candidates that are already stored.
///
/// A candidate is kept exactly when its device has no recorded time, or its
/// time lies strictly after the recorded one; a candidate with the recorded
/// time itself is a duplicate. The kept candidates come in their order.
pub fn filter_new(candidates: Vec<TemperatureData>, latest: &LatestByDevice) -> (kept: Vec<
    TemperatureData,
>)
    ensures
        readings(kept@) == new_readings(readings(candidates@), latest@),
{
    let ghost all = readings(candidates@);
    let ghost wanted = |reading: Reading| is_new(reading, latest@);
    let mut kept: Vec<TemperatureData> = Vec::new();
    for candidate in it: candidates
        invariant
            it.seq() == candidates@,
            all == readings(candidates@),
            wanted == |reading: Reading| is_new(reading, latest@),
            readings(kept@) == all.take(it.index() as int).filter(wanted),
    {
        let ghost i = it.index() as int;
        proof {
            assert(all.take(i + 1) =~= all.take(i).push(candidate@));
            all.take(i).lemma_filter_push(candidate@, wanted);
        }
        if latest.admits(&candidate) {
            kept.push(candidate);
        }
    }
    proof {
        assert(all.take(candidates@.len() as int) =~= all);
    }
    kept
}

/// Filtering a single candidate keeps it or leaves nothing.
proof fn lemma_single_candidate(candidate: Reading, latest: Map<Seq<char>, Timestamp>)
    ensures
        new_readings(seq![candidate], latest) == if is_new(candidate, latest) {
            seq![candidate]
        } else {
            Seq::<Reading>::empty()
        },
{
    let wanted = |reading: Reading| is_new(reading, latest);
    Seq::<Reading>::empty().lemma_filter_push(candidate, wanted);
}

/// The order of two readings of one device decides which of them is new.
///
/// Let `earlier` and `later` be readings of the same device, `earlier` with
/// the strictly smaller time. Where the time of `earlier` is the recorded one,
/// `later` alone is kept as it is. Where the time of `later` is the recorded
/// one, `earlier` alone is dropped.
pub proof fn law_later_reading_is_new(
    earlier: Reading,
    later: Reading,
    after_earlier: Map<Seq<char>, Timestamp>,
    after_later: Map<Seq<char>, Timestamp>,
)
    requires
        earlier.device_name == later.device_name,
        earlier.timestamp.precedes(later.timestamp),
        after_earlier.dom().contains(earlier.device_name),
        after_earlier[earlier.device_name] == earlier.timestamp,
        after_later.dom().contains(later.device_name),
        after_later[later.device_name] == later.timestamp,
    ensures
        new_readings(seq![later], after_earlier) == seq![later],
        new_readings(seq![earlier], after_later) == Seq::<Reading>::empty(),
{
    lemma_single_candidate(later, after_earlier);
    lemma_single_candidate(earlier, after_later);
}

/// Polling an unchanged value again writes nothing: where every candidate
/// carries the time recorded for its device, none is kept.
pub proof fn law_recorded_time_is_duplicate(
    candidates: Seq<Reading>,
    latest: Map<Seq<char>, Timestamp>,
)
    requires
        forall|i: int|
            0 <= i < candidates.len() ==> latest.dom().contains(
                (#[trigger] candidates[i]).device_name,
            ) && latest[candidates[i].device_name] == candidates[i].timestamp,
    ensures
        new_readings(candidates, latest) == Seq::<Reading>::empty(),
    decreases candidates.len(),
{
    let wanted = |reading: Reading| is_new(reading, latest);
    reveal(Seq::filter);
    if candidates.len() > 0 {
        let front = candidates.drop_last();
        law_recorded_time_is_duplicate(front, latest);
    }
}

/// A candidate of a device without a recorded time is kept, whatever its
/// time: alone it comes back as it is, and among others it is one of those
/// kept.
pub proof fn law_unknown_device_is_new(
    candidates: Seq<Reading>,
    i: int,
    latest: Map<Seq<char>, Timestamp>,
)
    requires
        0 <= i < candidates.len(),
        !latest.dom().contains(candidates[i].device_name),
    ensures
        new_readings(seq![candidates[i]], latest) == seq![candidates[i]],
        new_readings(candidates, latest).contains(candidates[i]),
{
    let wanted = |reading: Reading| is_new(reading, latest);
    lemma_single_candidate(candidates[i], latest);
    candidates.lemma_filter_contains(wanted, i);
}

/// Whatever is kept was offered and is new: each kept reading is one of the
/// candidates, unchanged, and its device has no recorded time or an earlier
/// one. So no kept reading shares its device and time with what is stored.
pub proof fn law_kept_reading_is_new(
    candidates: Seq<Reading>,
    latest: Map<Seq<char>, Timestamp>,
    i: int,
)
    requires
        0 <= i < new_readings(candidates, latest).len(),
    ensures
        candidates.contains(new_readings(candidates, latest)[i]),
        is_new(new_readings(candidates, latest)[i], latest),
        latest.dom().contains(new_readings(candidates, latest)[i].device_name)
            ==> latest[new_readings(candidates, latest)[i].device_name] != new_readings(
            candidates,
            latest,
        )[i].timestamp,
{
    let wanted = |reading: Reading| is_new(reading, latest);
    let kept = candidates.filter(wanted);
    candidates.lemma_filter_pred(wanted, i);
    assert(kept.contains(kept[i]));
    candidates.lemma_filter_contains_rev(wanted, kept[i]);
}

} // verus!
