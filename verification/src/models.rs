//! The payload of the metering portal, and the reconstruction of the
//! instant of each sample from the anchor of its series and its position.
//!
//! The portal stamps each sample with a local time that is wrong around
//! daylight-saving transitions. The stamp is therefore never used: the
//! instant of the sample at position `i` is the start of the series,
//! converted to UTC once, plus `i` steps of the declared resolution.

use vstd::prelude::*;
use crate::amount::Amount;
use crate::instant::{add_offset, offset_seconds, timestamp_in_range, UtcTime};
use crate::resolution::ResolutionDuration;
use crate::time::{
    is_held, local_to_utc, local_to_utc_opt, spec_local_to_utc, TimeParseError, Zone,
};

verus! {

/// The direction in which energy is metered.
#[derive(Clone, Copy, Debug, PartialEq, Eq, Structural)]
pub enum MeasurementType {
    /// Energy taken from the grid.
    Consumption,
    /// Energy fed into the grid.
    Production,
}

impl MeasurementType {
    /// The number by which the portal and the stores know the direction.
    pub open spec fn spec_code(self) -> i32 {
        match self {
            MeasurementType::Consumption => 1,
            MeasurementType::Production => 6,
        }
    }

    /// The number by which the portal and the stores know the direction: 1
    /// for consumption, 6 for production.
    pub fn code(&self) -> (code: i32)
        ensures
            code == self.spec_code(),
    {
        match self {
            MeasurementType::Consumption => 1,
            MeasurementType::Production => 6,
        }
    }
}

/// A reply of the portal.
#[derive(Debug)]
pub struct ConsumptionsResult {
    /// The body of the reply.
    pub getconsumptionsresult: GetConsumptionsResult,
}

/// The body of a reply: the metered data and, where asked for, the spot
/// prices of the same interval.
#[derive(Debug)]
pub struct GetConsumptionsResult {
    /// The metered series.
    pub consumptiondata: ConsumptionData,
    /// The spot prices.
    pub spotdata: Option<SpotData>,
}

/// The metered series of one metering point.
#[derive(Debug)]
pub struct ConsumptionData {
    /// The code of the metering point.
    pub meteringpointcode: String,
    /// The total over the interval.
    pub sum: Sum,
    /// The samples.
    pub timeseries: TimeSeries,
}

/// The spot prices of an interval.
#[derive(Debug)]
pub struct SpotData {
    /// The total over the interval.
    pub sum: Sum,
    /// The prices.
    pub timeseries: TimeSeries,
}

/// The total of a series over its interval.
#[derive(Debug)]
pub struct Sum {
    /// The total.
    pub quantity: Amount,
    /// The local time at which the interval starts.
    pub start: String,
    /// The local time at which the interval stops.
    pub stop: String,
    /// The unit of the quantities of the series.
    pub unit: String,
}

/// A series of samples at a fixed step.
#[derive(Debug)]
pub struct TimeSeries {
    /// The local time of the first sample: the anchor of the series.
    pub start: String,
    /// The local time at which the series stops.
    pub stop: String,
    /// The declared step between samples.
    pub resolution: String,
    /// The samples.
    pub values: Values,
}

/// The samples of a series, in the order of their positions.
#[derive(Debug)]
pub struct Values {
    /// The samples.
    pub tsv: Vec<TSV>,
}

/// One sample as the portal reports it.
#[derive(Debug)]
pub struct TSV {
    /// The metered quantity; absent where the portal has no data, which is
    /// not the same as zero.
    pub quantity: Option<Amount>,
    /// The local time that the portal stamps the sample with. Unreliable.
    pub time: String,
    /// The local time at which the interval that the sample belongs to
    /// starts.
    pub start: Option<String>,
    /// The local time at which that interval stops.
    pub stop: Option<String>,
    /// The unit of the quantity.
    pub unit: Option<String>,
}

/// A sample with the instant that was reconstructed for it.
#[derive(Clone, Copy, Debug, PartialEq, Eq, Structural)]
pub struct ResolvedPoint {
    /// The position of the sample in its series, counted from zero.
    pub index: usize,
    /// The instant of the sample.
    pub time: UtcTime,
    /// The metered quantity.
    pub quantity: Amount,
}

/// What a [`ResolvedPoint`] holds, with its instant in seconds since the
/// epoch.
pub struct ResolvedPointView {
    /// The position of the sample in its series.
    pub index: int,
    /// The instant of the sample.
    pub time: int,
    /// The metered quantity.
    pub quantity: Amount,
}

impl View for ResolvedPoint {
    type V = ResolvedPointView;

    open spec fn view(&self) -> ResolvedPointView {
        ResolvedPointView { index: self.index as int, time: self.time@, quantity: self.quantity }
    }
}

/// The views of a sequence of resolved points.
pub open spec fn resolved_views(points: Seq<ResolvedPoint>) -> Seq<ResolvedPointView> {
    points.map_values(|point: ResolvedPoint| point@)
}

/// The instant of an optional local timestamp: that of the timestamp where
/// there is one and it can be converted, else none.
pub open spec fn spec_optional_utc(text: Option<String>, zone: Seq<char>) -> Option<int> {
    match text {
        Some(local) => match spec_local_to_utc(local@, zone) {
            Ok(time) => Some(time),
            Err(_) => None,
        },
        None => None,
    }
}

/// The instant of a local timestamp where it can be converted, else none.
pub open spec fn spec_utc(text: Seq<char>, zone: Seq<char>) -> Option<int> {
    match spec_local_to_utc(text, zone) {
        Ok(time) => Some(time),
        Err(_) => None,
    }
}

/// The instant `index` steps after `anchor`, where there is an anchor and
/// the instant can be held.
pub open spec fn spec_positional(
    anchor: Option<int>,
    index: int,
    resolution: ResolutionDuration,
) -> Option<int> {
    match anchor {
        Some(base) => if timestamp_in_range(offset_seconds(base, index, resolution)) {
            Some(offset_seconds(base, index, resolution))
        } else {
            None
        },
        None => None,
    }
}

/// What decoding makes of the sample at position `i` of a series anchored
/// at `anchor`: nothing where the sample has no quantity or its instant
/// cannot be held, else the sample at the instant `i` steps after the anchor.
pub open spec fn resolve_point(
    anchor: int,
    resolution: ResolutionDuration,
    points: Seq<TSV>,
    i: int,
) -> Option<ResolvedPointView> {
    match points[i].quantity {
        Some(quantity) => if timestamp_in_range(offset_seconds(anchor, i, resolution)) {
            Some(
                ResolvedPointView {
                    index: i,
                    time: offset_seconds(anchor, i, resolution),
                    quantity,
                },
            )
        } else {
            None
        },
        None => None,
    }
}

/// What decoding makes of the first `n` samples of a series: what it makes
/// of each of them, in the order of the samples.
pub open spec fn decode_points(
    anchor: int,
    resolution: ResolutionDuration,
    points: Seq<TSV>,
    n: int,
) -> Seq<ResolvedPointView>
    decreases n,
{
    if n <= 0 {
        Seq::empty()
    } else {
        let before = decode_points(anchor, resolution, points, n - 1);
        match resolve_point(anchor, resolution, points, n - 1) {
            Some(point) => before.push(point),
            None => before,
        }
    }
}

/// What decoding makes of a series in the zone `zone`: the samples decoded
/// from the instant of its anchor at its declared resolution, or the error of
/// converting the anchor.
pub open spec fn spec_decode(series: TimeSeries, zone: Seq<char>) -> Result<
    Seq<ResolvedPointView>,
    TimeParseError,
> {
    match spec_local_to_utc(series.start@, zone) {
        Ok(anchor) => Ok(
            decode_points(
                anchor,
                ResolutionDuration::spec_from_str(series.resolution@),
                series.values.tsv@,
                series.values.tsv@.len() as int,
            ),
        ),
        Err(error) => Err(error),
    }
}

/// Every decoded sample stands at its position's offset from the anchor,
/// whatever daylight-saving transition lies between the two: its instant is
/// the anchor plus as many steps as its position counts, it carries the
/// quantity of the sample at that position, and the decoded samples keep the
/// order of the series.
pub proof fn lemma_decoded_points_are_positional(
    anchor: int,
    resolution: ResolutionDuration,
    points: Seq<TSV>,
    n: int,
)
    requires
        0 <= n <= points.len(),
    ensures
        decode_points(anchor, resolution, points, n).len() <= n,
        forall|k: int|
            0 <= k < decode_points(anchor, resolution, points, n).len() ==> {
                let point = #[trigger] decode_points(anchor, resolution, points, n)[k];
                &&& 0 <= point.index < n
                &&& point.time == anchor + point.index * resolution.spec_seconds()
                &&& timestamp_in_range(point.time)
                &&& points[point.index].quantity == Some(point.quantity)
            },
        forall|k: int, m: int|
            0 <= k < m < decode_points(anchor, resolution, points, n).len() ==> {
                &&& (#[trigger] decode_points(anchor, resolution, points, n)[k]).index < (
                #[trigger] decode_points(anchor, resolution, points, n)[m]).index
                &&& decode_points(anchor, resolution, points, n)[m].time - decode_points(
                    anchor,
                    resolution,
                    points,
                    n,
                )[k].time == (decode_points(anchor, resolution, points, n)[m].index
                    - decode_points(anchor, resolution, points, n)[k].index)
                    * resolution.spec_seconds()
            },
    decreases n,
{
    if n > 0 {
        lemma_decoded_points_are_positional(anchor, resolution, points, n - 1);
        let before = decode_points(anchor, resolution, points, n - 1);
        let all = decode_points(anchor, resolution, points, n);
        assert forall|k: int, m: int| 0 <= k < m < all.len() implies {
            &&& (#[trigger] all[k]).index < (#[trigger] all[m]).index
            &&& all[m].time - all[k].time == (all[m].index - all[k].index)
                * resolution.spec_seconds()
        } by {
            let a = all[k];
            let b = all[m];
            if m < before.len() {
                assert(a == before[k] && b == before[m]);
            } else {
                assert(a == before[k]);
                assert(b.index == n - 1);
            }
            assert(a.time == anchor + a.index * resolution.spec_seconds());
            assert(b.time == anchor + b.index * resolution.spec_seconds());
            assert(b.time - a.time == (b.index - a.index) * resolution.spec_seconds())
                by (nonlinear_arith)
                requires
                    a.time == anchor + a.index * resolution.spec_seconds(),
                    b.time == anchor + b.index * resolution.spec_seconds(),
            ;
        }
    }
}

/// A sample is decoded exactly where it has a quantity and its instant can
/// be held: a sample without quantity is left out, not decoded as zero, and
/// no sample is left out for any other reason, whatever its own stamp says.
pub proof fn lemma_decoded_positions(
    anchor: int,
    resolution: ResolutionDuration,
    points: Seq<TSV>,
    n: int,
    i: int,
)
    requires
        0 <= n <= points.len(),
        0 <= i < n,
    ensures
        resolve_point(anchor, resolution, points, i) is Some <==> exists|k: int|
            0 <= k < decode_points(anchor, resolution, points, n).len() && (
            #[trigger] decode_points(anchor, resolution, points, n)[k]).index == i,
        points[i].quantity is None ==> forall|k: int|
            0 <= k < decode_points(anchor, resolution, points, n).len() ==> (
            #[trigger] decode_points(anchor, resolution, points, n)[k]).index != i,
    decreases n,
{
    let all = decode_points(anchor, resolution, points, n);
    let before = decode_points(anchor, resolution, points, n - 1);
    lemma_decoded_points_are_positional(anchor, resolution, points, n - 1);
    lemma_decoded_points_are_positional(anchor, resolution, points, n);
    if i < n - 1 {
        lemma_decoded_positions(anchor, resolution, points, n - 1, i);
        if resolve_point(anchor, resolution, points, i) is Some {
            let k = choose|k: int| 0 <= k < before.len() && (#[trigger] before[k]).index == i;
            assert(all[k] == before[k]);
        } else {
            assert forall|k: int| 0 <= k < all.len() implies (#[trigger] all[k]).index != i by {
                if k < before.len() {
                    assert(all[k] == before[k]);
                }
            }
        }
    } else {
        if resolve_point(anchor, resolution, points, i) is Some {
            assert(all.len() == before.len() + 1);
            assert(all[before.len() as int].index == i);
        } else {
            assert(all == before);
            assert forall|k: int| 0 <= k < all.len() implies (#[trigger] all[k]).index != i by {
                assert(0 <= before[k].index < n - 1);
            }
        }
    }
}

impl Sum {
    /// The instant at which the interval starts, `None` where `start`
    /// cannot be converted.
    pub fn get_start_utc(&self, zone: &Zone) -> (time: Option<UtcTime>)
        ensures
            is_held(time, spec_utc(self.start@, zone@)),
    {
        local_to_utc_opt(self.start.as_str(), zone)
    }

    /// The instant at which the interval stops, `None` where `stop` cannot
    /// be converted.
    pub fn get_stop_utc(&self, zone: &Zone) -> (time: Option<UtcTime>)
        ensures
            is_held(time, spec_utc(self.stop@, zone@)),
    {
        local_to_utc_opt(self.stop.as_str(), zone)
    }
}

impl TimeSeries {
    /// The instant of the anchor, `None` where `start` cannot be
    /// converted.
    pub fn get_start_utc(&self, zone: &Zone) -> (time: Option<UtcTime>)
        ensures
            is_held(time, spec_utc(self.start@, zone@)),
    {
        local_to_utc_opt(self.start.as_str(), zone)
    }

    /// The instant at which the series stops, `None` where `stop` cannot be
    /// converted.
    pub fn get_stop_utc(&self, zone: &Zone) -> (time: Option<UtcTime>)
        ensures
            is_held(time, spec_utc(self.stop@, zone@)),
    {
        local_to_utc_opt(self.stop.as_str(), zone)
    }

    /// The step of the series: the one that `resolution` names, and an hour
    /// where it names none.
    pub fn resolution_duration(&self) -> (resolution: ResolutionDuration)
        ensures
            resolution == ResolutionDuration::spec_from_str(self.resolution@),
    {
        ResolutionDuration::from_str(self.resolution.as_str())
    }

    /// Decodes the series: converts the anchor to UTC once and places each
    /// sample that has a quantity at its position's offset from it. Samples
    /// without quantity are left out, as are samples whose instant cannot be
    /// held. Fails where the anchor cannot be converted, with the error of
    /// the conversion.
    pub fn decode(&self, zone: &Zone) -> (decoded: Result<Vec<ResolvedPoint>, TimeParseError>)
        ensures
            match decoded {
                Ok(points) => spec_decode(*self, zone@) matches Ok(views) && views
                    == resolved_views(points@),
                Err(error) => spec_decode(*self, zone@) matches Err(e) && e == error,
            },
    {
        let anchor: UtcTime = match local_to_utc(self.start.as_str(), zone) {
            Ok(time) => time,
            Err(error) => {
                return Err(error);
            },
        };
        Ok(decode_from(anchor, self.resolution_duration(), &self.values.tsv))
    }
}

/// Decodes samples from an anchor that is already in UTC; see
/// [`TimeSeries::decode`].
pub fn decode_from(anchor: UtcTime, resolution: ResolutionDuration, samples: &Vec<TSV>) -> (points:
    Vec<ResolvedPoint>)
    ensures
        resolved_views(points@) == decode_points(
            anchor@,
            resolution,
            samples@,
            samples@.len() as int,
        ),
{
    let mut points: Vec<ResolvedPoint> = Vec::new();
    let mut i: usize = 0;
    while i < samples.len()
        invariant
            i <= samples.len(),
            resolved_views(points@) == decode_points(anchor@, resolution, samples@, i as int),
        decreases samples.len() - i,
    {
        let ghost before = points@;
        match samples[i].quantity {
            Some(quantity) => {
                match add_offset(anchor, i as u64, resolution) {
                    Some(time) => {
                        let point = ResolvedPoint { index: i, time, quantity };
                        points.push(point);
                        assert(resolved_views(points@) == resolved_views(before).push(point@));
                    },
                    None => {},
                }
            },
            None => {},
        }
        i = i + 1;
    }
    points
}

impl TSV {
    /// The instant that the stamp of the sample denotes. The stamp is wrong
    /// around daylight-saving transitions: use
    /// [`TSV::get_timestamp_utc_calculated`] or [`TimeSeries::decode`], which
    /// do not read it. This is kept for comparing the two.
    pub fn get_timestamp_utc(&self, zone: &Zone) -> (time: Option<UtcTime>)
        ensures
            is_held(time, spec_utc(self.time@, zone@)),
    {
        local_to_utc_opt(self.time.as_str(), zone)
    }

    /// The instant `index` steps of `resolution` after the start of the
    /// interval of this sample; `None` where the sample names no start, the
    /// start cannot be converted, or the instant cannot be held.
    pub fn get_timestamp_utc_calculated(
        &self,
        index: usize,
        resolution: &ResolutionDuration,
        zone: &Zone,
    ) -> (time: Option<UtcTime>)
        ensures
            is_held(
                time,
                spec_positional(spec_optional_utc(self.start, zone@), index as int, *resolution),
            ),
    {
        match self.get_start_utc(zone) {
            Some(base) => add_offset(base, index as u64, *resolution),
            None => None,
        }
    }

    /// The instant at which the interval of this sample starts.
    pub fn get_start_utc(&self, zone: &Zone) -> (time: Option<UtcTime>)
        ensures
            is_held(time, spec_optional_utc(self.start, zone@)),
    {
        match &self.start {
            Some(text) => local_to_utc_opt(text.as_str(), zone),
            None => None,
        }
    }

    /// The instant at which the interval of this sample stops.
    pub fn get_stop_utc(&self, zone: &Zone) -> (time: Option<UtcTime>)
        ensures
            is_held(time, spec_optional_utc(self.stop, zone@)),
    {
        match &self.stop {
            Some(text) => local_to_utc_opt(text.as_str(), zone),
            None => None,
        }
    }
}

} // verus!
