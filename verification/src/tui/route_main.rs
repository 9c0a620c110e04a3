//! What the main screen keeps: today's records, the time tracked, and the
//! running shares of productive and leisure time, as whole numbers of
//! seconds. Turning a share into a fraction is left to whoever draws it.

use crate::record_store::date::{day_comes, Date};
use crate::record_store::db::{records_under, Days};
use crate::record_store::time::{nanos_between, whole_secs_between};
use crate::record_store::{ActivityRecord, ActivityRecordView, ProductivityStatus, Timestamp};
use crate::state::{AppState, AppStateView};
use crate::tui::routes::Route;
use vstd::prelude::*;
use vstd::std_specs::convert::FromSpecImpl;

verus! {

/// How many records are taken into the running shares in one go.
pub const PROCESSING_QUEUE_SIZE: usize = 100;

/// A point of a chart: at `at` seconds of tracked time the share is `part`
/// seconds out of `of`.
#[derive(Debug, Clone, Copy, PartialEq, Eq, Structural)]
pub struct DataPoint {
    pub at: u64,
    pub part: u64,
    pub of: u64,
}

/// What a record adds to the charts.
#[derive(Debug, Clone, Copy, PartialEq, Eq, Structural)]
pub struct RecordProcessingResult {
    pub leusure_avg: DataPoint,
    pub prod_avg: DataPoint,
    /// Whole seconds that the record lasted.
    pub duration: u64,
}

/// A number of seconds as a `u64` holds it: numbers that are too large count
/// as the largest.
pub open spec fn capped(secs: int) -> u64 {
    if secs > u64::MAX {
        u64::MAX
    } else if secs < 0 {
        0
    } else {
        secs as u64
    }
}

/// A number of nanoseconds as a `u128` holds it: numbers that are too large
/// count as the largest.
pub open spec fn capped_nanos(nanos: int) -> u128 {
    if nanos > u128::MAX {
        u128::MAX
    } else if nanos < 0 {
        0
    } else {
        nanos as u128
    }
}

/// Whole seconds that a record lasted.
pub open spec fn span_secs(record: ActivityRecordView) -> int {
    whole_secs_between(record.time_range.0, record.time_range.1)
}

/// Whole seconds of a record that count as productive.
pub open spec fn productive_part(record: ActivityRecordView) -> int {
    if record.productivity is Productive {
        span_secs(record)
    } else {
        0
    }
}

/// Whole seconds of a record that count as leisure.
pub open spec fn leisure_part(record: ActivityRecordView) -> int {
    if record.productivity is Leisure {
        span_secs(record)
    } else {
        0
    }
}

/// Whole seconds that the records lasted together.
pub open spec fn tracked_secs(records: Seq<ActivityRecordView>) -> int
    decreases records.len(),
{
    if records.len() == 0 {
        0
    } else {
        tracked_secs(records.drop_last()) + span_secs(records.last())
    }
}

/// Whole seconds of the records that count as productive.
pub open spec fn productive_secs(records: Seq<ActivityRecordView>) -> int
    decreases records.len(),
{
    if records.len() == 0 {
        0
    } else {
        productive_secs(records.drop_last()) + productive_part(records.last())
    }
}

/// Whole seconds of the records that count as leisure.
pub open spec fn leisure_secs(records: Seq<ActivityRecordView>) -> int
    decreases records.len(),
{
    if records.len() == 0 {
        0
    } else {
        leisure_secs(records.drop_last()) + leisure_part(records.last())
    }
}

/// Nanoseconds that the records lasted together.
pub open spec fn tracked_nanos(records: Seq<ActivityRecordView>) -> int
    decreases records.len(),
{
    if records.len() == 0 {
        0
    } else {
        tracked_nanos(records.drop_last()) + nanos_between(
            records.last().time_range.0,
            records.last().time_range.1,
        )
    }
}

/// The main screen's state.
#[derive(Debug)]
pub struct RouteMain {
    /// Today's records, the latest first.
    records: Vec<ActivityRecord>,
    /// Total duration of tracking, in nanoseconds.
    tracking_time: u128,
    /// Share of productive time after each record taken in.
    dataset_prod_cache: Vec<DataPoint>,
    /// Share of leisure time after each record taken in.
    dataset_leisure_cache: Vec<DataPoint>,
    /// Number of records taken in.
    processed_records: usize,
    /// Seconds of the records taken in.
    processed_time_cached: u64,
    /// Productive seconds of the records taken in.
    total_productive_time_cache: u64,
    /// Leisure seconds of the records taken in.
    total_leisure_time_cache: u64,
}

/// Mathematical model of a [`RouteMain`].
pub struct RouteMainView {
    pub records: Seq<ActivityRecordView>,
    pub tracking_time: u128,
    pub dataset_prod_cache: Seq<DataPoint>,
    pub dataset_leisure_cache: Seq<DataPoint>,
    pub processed_records: usize,
    pub processed_time_cached: u64,
    pub total_productive_time_cache: u64,
    pub total_leisure_time_cache: u64,
}

impl Route for RouteMain {

}

impl Default for RouteMain {
    /// A screen without records and without points.
    fn default() -> (screen: Self)
        ensures
            screen@ == (RouteMainView {
                records: Seq::empty(),
                tracking_time: 0,
                dataset_prod_cache: Seq::empty(),
                dataset_leisure_cache: Seq::empty(),
                processed_records: 0,
                processed_time_cached: 0,
                total_productive_time_cache: 0,
                total_leisure_time_cache: 0,
            }),
    {
        let screen = Self {
            records: Vec::new(),
            tracking_time: 0,
            dataset_prod_cache: Vec::new(),
            dataset_leisure_cache: Vec::new(),
            processed_records: 0,
            processed_time_cached: 0,
            total_productive_time_cache: 0,
            total_leisure_time_cache: 0,
        };
        assert(screen.records.deep_view() =~= Seq::empty());
        screen
    }
}

impl From<&AppState> for RouteMain {
    /// The screen of a session today, by the system clock: whatever the
    /// clock reads, the screen that [`RouteMain::from_state_at`] gives for
    /// that reading.
    fn from(state: &AppState) -> (screen: Self)
        ensures
            exists|now: Timestamp| #[trigger] screened_at(state@.store, screen@, now),
    {
        Self::from_state(state)
    }
}

/// What the conversion gives is stated by the `ensures` of `from`, over the
/// models of both sides; no spec function names the value itself.
impl FromSpecImpl<&AppState> for RouteMain {
    open spec fn obeys_from_spec() -> bool {
        false
    }

    open spec fn from_spec(state: &AppState) -> RouteMain {
        arbitrary()
    }
}

impl View for RouteMain {
    type V = RouteMainView;

    closed spec fn view(&self) -> RouteMainView {
        RouteMainView {
            records: self.records.deep_view(),
            tracking_time: self.tracking_time,
            dataset_prod_cache: self.dataset_prod_cache@,
            dataset_leisure_cache: self.dataset_leisure_cache@,
            processed_records: self.processed_records,
            processed_time_cached: self.processed_time_cached,
            total_productive_time_cache: self.total_productive_time_cache,
            total_leisure_time_cache: self.total_leisure_time_cache,
        }
    }
}

/// What a record adds to the charts of a screen: the shares of productive
/// and of leisure time once the record is counted in.
pub open spec fn processed(
    screen: RouteMainView,
    record: ActivityRecordView,
) -> RecordProcessingResult {
    let at = capped(screen.processed_time_cached + span_secs(record));
    RecordProcessingResult {
        prod_avg: DataPoint {
            at,
            part: capped(screen.total_productive_time_cache + productive_part(record)),
            of: at,
        },
        leusure_avg: DataPoint {
            at,
            part: capped(screen.total_leisure_time_cache + leisure_part(record)),
            of: at,
        },
        duration: capped(span_secs(record)),
    }
}

/// How many records are taken in next: all that wait but the last of the
/// list, and no more than fit in one go.
pub open spec fn batch_len(screen: RouteMainView) -> int {
    let waiting = screen.records.len() - 1 - screen.processed_records;
    if waiting <= 0 {
        0
    } else if waiting > PROCESSING_QUEUE_SIZE {
        PROCESSING_QUEUE_SIZE as int
    } else {
        waiting
    }
}

/// The records that are taken in next.
pub open spec fn batch(screen: RouteMainView) -> Seq<ActivityRecordView> {
    if batch_len(screen) == 0 {
        Seq::empty()
    } else {
        screen.records.subrange(
            screen.processed_records as int,
            screen.processed_records + batch_len(screen),
        )
    }
}

/// The point of the chart of productive time once a screen has taken in the
/// first `count` of the records `taken`.
pub open spec fn prod_point(
    screen: RouteMainView,
    taken: Seq<ActivityRecordView>,
    count: int,
) -> DataPoint {
    DataPoint {
        at: capped(screen.processed_time_cached + tracked_secs(taken.take(count))),
        part: capped(screen.total_productive_time_cache + productive_secs(taken.take(count))),
        of: capped(screen.processed_time_cached + tracked_secs(taken.take(count))),
    }
}

/// The point of the chart of leisure time once a screen has taken in the
/// first `count` of the records `taken`.
pub open spec fn leisure_point(
    screen: RouteMainView,
    taken: Seq<ActivityRecordView>,
    count: int,
) -> DataPoint {
    DataPoint {
        at: capped(screen.processed_time_cached + tracked_secs(taken.take(count))),
        part: capped(screen.total_leisure_time_cache + leisure_secs(taken.take(count))),
        of: capped(screen.processed_time_cached + tracked_secs(taken.take(count))),
    }
}

/// The points that the first `count` of the records `taken` add to the chart
/// of productive time: one after each record.
pub open spec fn prod_points(
    screen: RouteMainView,
    taken: Seq<ActivityRecordView>,
    count: nat,
) -> Seq<DataPoint> {
    Seq::new(count, |j: int| prod_point(screen, taken, j + 1))
}

/// The points that the first `count` of the records `taken` add to the chart
/// of leisure time: one after each record.
pub open spec fn leisure_points(
    screen: RouteMainView,
    taken: Seq<ActivityRecordView>,
    count: nat,
) -> Seq<DataPoint> {
    Seq::new(count, |j: int| leisure_point(screen, taken, j + 1))
}

/// The screen after the next records were taken in: each adds its seconds to
/// the running sums and a point to each chart.
pub open spec fn after_batch(screen: RouteMainView) -> RouteMainView {
    let taken = batch(screen);
    RouteMainView {
        processed_records: (screen.processed_records + taken.len()) as usize,
        processed_time_cached: capped(screen.processed_time_cached + tracked_secs(taken)),
        total_productive_time_cache: capped(
            screen.total_productive_time_cache + productive_secs(taken),
        ),
        total_leisure_time_cache: capped(screen.total_leisure_time_cache + leisure_secs(taken)),
        dataset_prod_cache: screen.dataset_prod_cache + prod_points(screen, taken, taken.len()),
        dataset_leisure_cache: screen.dataset_leisure_cache + leisure_points(
            screen,
            taken,
            taken.len(),
        ),
        ..screen
    }
}

/// The screen after a tick at `now`: where the number of today's records
/// changed, the records are taken over, the latest first, and the tracked
/// time is counted anew. The time of the open segment is added in any case.
pub open spec fn after_tick(
    screen: RouteMainView,
    todays: Seq<ActivityRecordView>,
    open_segment_nanos: int,
) -> RouteMainView {
    if todays.len() != screen.records.len() {
        RouteMainView {
            records: todays.reverse(),
            tracking_time: capped_nanos(capped_nanos(tracked_nanos(todays)) + open_segment_nanos),
            ..screen
        }
    } else {
        RouteMainView {
            tracking_time: capped_nanos(screen.tracking_time + open_segment_nanos),
            ..screen
        }
    }
}

/// The screen of a session on the day with the key `today`: the day's
/// records, the latest first, the time that they lasted, and charts that
/// begin at zero.
pub open spec fn screen_of(store: Days, today: Seq<char>) -> RouteMainView {
    screen_over(records_under(store, today))
}

/// Whether `screen` is the screen of a session with the store `store` at
/// `now`: that of some day where a day comes for `now`, that over no records
/// where none comes.
pub open spec fn screened_at(store: Days, screen: RouteMainView, now: Timestamp) -> bool {
    if day_comes(now) {
        exists|today: Date| screen == #[trigger] screen_of(store, today.key_text())
    } else {
        screen == screen_over(Seq::empty())
    }
}

/// Whether a screen that was `before` is `after` once it has taken over at
/// `now` what the session `state` holds: the records of some day where a day
/// comes for `now`, no records where none comes, and in both cases the time
/// that the open segment has lasted at `now`.
pub open spec fn ticked_at(
    before: RouteMainView,
    after: RouteMainView,
    state: AppStateView,
    now: Timestamp,
) -> bool {
    if day_comes(now) {
        exists|today: Date| after == #[trigger] after_tick(
            before,
            records_under(state.store, today.key_text()),
            nanos_between(state.tracker.segment_start, now),
        )
    } else {
        after == after_tick(before, Seq::empty(), nanos_between(state.tracker.segment_start, now))
    }
}

/// The screen over the records `todays` of a day: the records, the latest
/// first, the time that they lasted, and charts that begin at zero.
pub open spec fn screen_over(todays: Seq<ActivityRecordView>) -> RouteMainView {
    RouteMainView {
        records: todays.reverse(),
        tracking_time: capped_nanos(tracked_nanos(todays)),
        dataset_prod_cache: seq![DataPoint { at: 0, part: 0, of: 1 }],
        dataset_leisure_cache: seq![DataPoint { at: 0, part: 0, of: 1 }],
        processed_records: 0,
        processed_time_cached: 0,
        total_productive_time_cache: 0,
        total_leisure_time_cache: 0,
    }
}

fn total_nanos(records: &Vec<ActivityRecord>) -> (nanos: u128)
    ensures
        nanos == capped_nanos(tracked_nanos(records.deep_view())),
{
    let ghost all = records.deep_view();
    let mut nanos: u128 = 0;
    let mut i: usize = 0;
    assert(all.take(0) =~= Seq::empty());
    while i < records.len()
        invariant
            i <= records.len(),
            all == records.deep_view(),
            tracked_nanos(all.take(i as int)) >= 0,
            nanos == capped_nanos(tracked_nanos(all.take(i as int))),
        decreases records.len() - i,
    {
        assert(all.take(i + 1).drop_last() =~= all.take(i as int));
        assert(all.take(i + 1).last() == records@[i as int]@);
        let span = records[i].time_range.1.nanos_since(&records[i].time_range.0);
        nanos = nanos.saturating_add(span);
        i += 1;
    }
    assert(all.take(all.len() as int) =~= all);
    nanos
}

fn reversed(records: Vec<ActivityRecord>) -> (latest_first: Vec<ActivityRecord>)
    ensures
        latest_first.deep_view() == records.deep_view().reverse(),
{
    let mut records = records;
    let ghost all = records.deep_view();
    let mut latest_first: Vec<ActivityRecord> = Vec::new();
    while records.len() > 0
        invariant
            records.deep_view().len() + latest_first.deep_view().len() == all.len(),
            forall|j: int|
                0 <= j < records.deep_view().len() ==> records.deep_view()[j] == all[j],
            forall|j: int|
                0 <= j < latest_first.deep_view().len() ==> latest_first.deep_view()[j]
                    == all[all.len() - 1 - j],
        decreases records.len(),
    {
        let ghost before = latest_first.deep_view();
        let ghost left = records.deep_view();
        match records.pop() {
            Some(record) => {
                assert(record@ == left[left.len() - 1]);
                latest_first.push(record);
                assert(latest_first.deep_view() =~= before.push(record@));
                assert(records.deep_view() =~= left.drop_last());
            },
            None => {},
        }
    }
    assert(latest_first.deep_view() =~= all.reverse());
    latest_first
}

impl RouteMain {
    /// The screen of a session on the day `today`.
    pub fn from_state_on(state: &AppState, today: &Date) -> (screen: Self)
        ensures
            screen@ == screen_of(state@.store, today.key_text()),
    {
        Self::over(state.store().query_records_on(today))
    }

    /// The screen over the records of a day.
    pub fn over(todays: Vec<ActivityRecord>) -> (screen: Self)
        ensures
            screen@ == screen_over(todays.deep_view()),
    {
        let tracking_time = total_nanos(&todays);
        let records = reversed(todays);
        let mut dataset_prod_cache: Vec<DataPoint> = Vec::new();
        dataset_prod_cache.push(DataPoint { at: 0, part: 0, of: 1 });
        let mut dataset_leisure_cache: Vec<DataPoint> = Vec::new();
        dataset_leisure_cache.push(DataPoint { at: 0, part: 0, of: 1 });
        Self {
            records,
            tracking_time,
            processed_records: 0,
            total_productive_time_cache: 0,
            total_leisure_time_cache: 0,
            dataset_leisure_cache,
            dataset_prod_cache,
            processed_time_cached: 0,
        }
    }

    /// The screen of a session today, by the system clock: whatever the
    /// clock reads, the screen that [`RouteMain::from_state_at`] gives for
    /// that reading.
    pub fn from_state(state: &AppState) -> (screen: Self)
        ensures
            exists|now: Timestamp| #[trigger] screened_at(state@.store, screen@, now),
    {
        Self::from_state_at(state, Timestamp::now())
    }

    /// The screen of a session on the day that it is at `now`. Where no day
    /// comes for `now`, the screen is that over no records.
    pub fn from_state_at(state: &AppState, now: Timestamp) -> (screen: Self)
        ensures
            screened_at(state@.store, screen@, now),
    {
        match Date::local_on(now) {
            Some(today) => Self::from_state_on(state, &today),
            None => {
                let none: Vec<ActivityRecord> = Vec::new();
                assert(none.deep_view() =~= Seq::empty());
                Self::over(none)
            },
        }
    }

    /// Calculates an appendage to average productive dataset
    /// based on currently cached metrics
    pub fn process_record(&self, record: &ActivityRecord) -> (result: RecordProcessingResult)
        ensures
            result == processed(self@, record@),
    {
        let record_length_secs = record.duration_secs();
        let new_time_point = self.processed_time_cached.saturating_add(record_length_secs);
        let (productive, leisure) = match record.productivity {
            ProductivityStatus::Leisure(_) => (
                self.total_productive_time_cache,
                self.total_leisure_time_cache.saturating_add(record_length_secs),
            ),
            ProductivityStatus::Productive(_) => (
                self.total_productive_time_cache.saturating_add(record_length_secs),
                self.total_leisure_time_cache,
            ),
            ProductivityStatus::Neutral => (
                self.total_productive_time_cache,
                self.total_leisure_time_cache,
            ),
        };
        RecordProcessingResult {
            prod_avg: DataPoint { at: new_time_point, part: productive, of: new_time_point },
            leusure_avg: DataPoint { at: new_time_point, part: leisure, of: new_time_point },
            duration: record_length_secs,
        }
    }

    /// Takes the next records into the running sums and the charts: those
    /// that wait, but never the last of the list, and no more than
    /// [`PROCESSING_QUEUE_SIZE`] in one go.
    pub fn before_render(&mut self)
        ensures
            final(self)@ == after_batch(old(self)@),
    {
        let ghost start = self@;
        let ghost taken = batch(start);
        let records_available = self.records.len();
        let first = self.processed_records;
        let mut queue_index: usize = 0;
        assert(taken.take(0) =~= Seq::empty());
        while records_available > 1 && queue_index < PROCESSING_QUEUE_SIZE && first
            < records_available - 1 && queue_index < records_available - 1 - first
            invariant
                records_available == self.records.len(),
                first == start.processed_records,
                taken == batch(start),
                queue_index <= batch_len(start),
                self@.records == start.records,
                self@.tracking_time == start.tracking_time,
                self@.processed_records == start.processed_records,
                tracked_secs(taken.take(queue_index as int)) >= 0,
                productive_secs(taken.take(queue_index as int)) >= 0,
                leisure_secs(taken.take(queue_index as int)) >= 0,
                self@.processed_time_cached == capped(
                    start.processed_time_cached + tracked_secs(taken.take(queue_index as int)),
                ),
                self@.total_productive_time_cache == capped(
                    start.total_productive_time_cache + productive_secs(
                        taken.take(queue_index as int),
                    ),
                ),
                self@.total_leisure_time_cache == capped(
                    start.total_leisure_time_cache + leisure_secs(taken.take(queue_index as int)),
                ),
                self@.dataset_prod_cache == start.dataset_prod_cache + prod_points(
                    start,
                    taken,
                    queue_index as nat,
                ),
                self@.dataset_leisure_cache == start.dataset_leisure_cache + leisure_points(
                    start,
                    taken,
                    queue_index as nat,
                ),
            decreases batch_len(start) - queue_index,
        {
            let ghost prod_before = self.dataset_prod_cache@;
            let ghost leisure_before = self.dataset_leisure_cache@;
            let result = self.process_record(&self.records[first + queue_index]);
            proof {
                let q = queue_index as int;
                assert(taken.take(q + 1).drop_last() =~= taken.take(q));
                assert(taken.take(q + 1).last() == self.records@[first + q]@);
            }
            self.dataset_prod_cache.push(result.prod_avg);
            self.dataset_leisure_cache.push(result.leusure_avg);
            self.total_productive_time_cache = result.prod_avg.part;
            self.total_leisure_time_cache = result.leusure_avg.part;
            self.processed_time_cached = result.prod_avg.at;
            queue_index += 1;
            proof {
                assert(self.dataset_prod_cache@ =~= prod_before.push(result.prod_avg));
                assert(self.dataset_leisure_cache@ =~= leisure_before.push(result.leusure_avg));
                assert(self@.dataset_prod_cache =~= start.dataset_prod_cache + prod_points(
                    start,
                    taken,
                    queue_index as nat,
                ));
                assert(self@.dataset_leisure_cache =~= start.dataset_leisure_cache
                    + leisure_points(start, taken, queue_index as nat));
            }
        }
        assert(queue_index == batch_len(start));
        assert(taken.take(queue_index as int) =~= taken);
        self.processed_records = first + queue_index;
    }

    /// Takes over what the session holds at the current time: whatever the
    /// clock reads, the screen does what [`RouteMain::tick_at`] does for
    /// that reading.
    pub fn tick(&mut self, app_state: &AppState)
        ensures
            exists|now: Timestamp| #[trigger]
                ticked_at(old(self)@, final(self)@, app_state@, now),
    {
        self.tick_at(app_state, Timestamp::now())
    }

    /// Takes over what the session holds at `now`, on the day that it is at
    /// `now`. Where no day comes for `now`, the session counts as holding no
    /// records of today.
    pub fn tick_at(&mut self, app_state: &AppState, now: Timestamp)
        ensures
            ticked_at(old(self)@, final(self)@, app_state@, now),
    {
        match Date::local_on(now) {
            Some(today) => self.tick_on(app_state, now, &today),
            None => {
                let none: Vec<ActivityRecord> = Vec::new();
                assert(none.deep_view() =~= Seq::empty());
                self.tick_over(none, app_state.tracker().get_current_tracking_period_at(now))
            },
        }
    }

    /// Takes over what the session holds at `now`, on the day `today`.
    pub fn tick_on(&mut self, app_state: &AppState, now: Timestamp, today: &Date)
        ensures
            final(self)@ == after_tick(
                old(self)@,
                records_under(app_state@.store, today.key_text()),
                nanos_between(app_state@.tracker.segment_start, now),
            ),
    {
        let todays = app_state.store().query_records_on(today);
        let open_segment = app_state.tracker().get_current_tracking_period_at(now);
        self.tick_over(todays, open_segment)
    }

    /// Takes over the records `todays` of today and the time that the open
    /// segment has lasted.
    pub fn tick_over(&mut self, todays: Vec<ActivityRecord>, open_segment: u128)
        ensures
            final(self)@ == after_tick(old(self)@, todays.deep_view(), open_segment as int),
    {
        if todays.len() != self.records.len() {
            self.tracking_time = total_nanos(&todays);
            self.records = reversed(todays);
        }
        self.tracking_time = self.tracking_time.saturating_add(open_segment);
    }

    /// Today's records, the latest first.
    pub fn records(&self) -> (records: &Vec<ActivityRecord>)
        ensures
            records.deep_view() == self@.records,
    {
        &self.records
    }

    /// Total duration of tracking, in nanoseconds.
    pub fn tracking_time(&self) -> (nanos: u128)
        ensures
            nanos == self@.tracking_time,
    {
        self.tracking_time
    }

    /// Share of productive time after each record taken in.
    pub fn dataset_prod_cache(&self) -> (points: &Vec<DataPoint>)
        ensures
            points@ == self@.dataset_prod_cache,
    {
        &self.dataset_prod_cache
    }

    /// Share of leisure time after each record taken in.
    pub fn dataset_leisure_cache(&self) -> (points: &Vec<DataPoint>)
        ensures
            points@ == self@.dataset_leisure_cache,
    {
        &self.dataset_leisure_cache
    }

    /// Seconds of the records taken in.
    pub fn processed_time_cached(&self) -> (secs: u64)
        ensures
            secs == self@.processed_time_cached,
    {
        self.processed_time_cached
    }

    /// Number of records taken in.
    pub fn processed_records(&self) -> (count: usize)
        ensures
            count == self@.processed_records,
    {
        self.processed_records
    }
}

} // verus!
