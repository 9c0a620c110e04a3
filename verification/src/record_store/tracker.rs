//! Turns a stream of point-in-time observations into closed spans.

use crate::record_store::time::{nanos_between, Timestamp};
use crate::record_store::{
    ActivityRecord, ActivityRecordView, Archetype, ArchetypeView, ProductivityStatus,
    ProductivityStatusView,
};
use vstd::prelude::*;

verus! {

/// Follows the activity that is currently observed and the moment at which
/// it was first seen.
#[derive(Debug)]
pub struct RecordTracker {
    time_of_first_submission: Timestamp,
    current_archetype: Option<Archetype>,
}

/// Mathematical model of a [`RecordTracker`].
pub struct RecordTrackerView {
    /// When the current segment began.
    pub segment_start: Timestamp,
    /// What is being observed, if anything was observed yet.
    pub current: Option<ArchetypeView>,
}

impl View for RecordTracker {
    type V = RecordTrackerView;

    closed spec fn view(&self) -> RecordTrackerView {
        RecordTrackerView {
            segment_start: self.time_of_first_submission,
            current: self.current_archetype.deep_view(),
        }
    }
}

/// The record of a segment of `kind` that began at `start` and is closed at
/// `now`. A clock that ran backwards gives a span of length zero.
pub open spec fn closed_segment(
    kind: ArchetypeView,
    start: Timestamp,
    now: Timestamp,
) -> ActivityRecordView {
    ActivityRecordView {
        time_range: (
            start,
            if now.nanos >= start.nanos {
                now
            } else {
                start
            },
        ),
        productivity: ProductivityStatusView::Neutral,
        archetype: kind,
    }
}

/// The tracker after it was told at `now` that `observed` is on screen.
pub open spec fn tracker_after(
    tracker: RecordTrackerView,
    observed: Option<ArchetypeView>,
    now: Timestamp,
) -> RecordTrackerView {
    if observed == tracker.current {
        tracker
    } else {
        RecordTrackerView { segment_start: now, current: observed }
    }
}

/// The record that the tracker hands out when it is told at `now` that
/// `observed` is on screen: the segment that ends there, if one was open and
/// the observation differs from it.
pub open spec fn tracker_emits(
    tracker: RecordTrackerView,
    observed: Option<ArchetypeView>,
    now: Timestamp,
) -> Option<ActivityRecordView> {
    if observed == tracker.current {
        None
    } else {
        match tracker.current {
            Some(kind) => Some(closed_segment(kind, tracker.segment_start, now)),
            None => None,
        }
    }
}

impl RecordTracker {
    /// A tracker that has observed nothing yet, started at the current time.
    pub fn new() -> (tracker: Self)
        ensures
            tracker@.current is None,
    {
        Self::new_at(Timestamp::now())
    }

    /// A tracker that has observed nothing yet, started at `now`.
    pub fn new_at(now: Timestamp) -> (tracker: Self)
        ensures
            tracker@ == (RecordTrackerView { segment_start: now, current: None }),
    {
        Self { time_of_first_submission: now, current_archetype: None }
    }

    /// What is being observed.
    pub fn get_current_archetype(&self) -> (current: &Option<Archetype>)
        ensures
            current.deep_view() == self@.current,
    {
        &self.current_archetype
    }

    /// When the current segment began.
    pub fn get_segment_start(&self) -> (start: Timestamp)
        ensures
            start == self@.segment_start,
    {
        self.time_of_first_submission
    }

    /// Reports what is on screen at the current time. Whatever the clock
    /// reads, the tracker behaves as [`RecordTracker::ping_at`] does for
    /// that reading.
    pub fn ping(&mut self, arch: Option<Archetype>) -> (report: Option<ActivityRecord>)
        ensures
            exists|now: Timestamp|
                {
                    &&& final(self)@ == #[trigger] tracker_after(
                        old(self)@,
                        arch.deep_view(),
                        now,
                    )
                    &&& report.deep_view() == tracker_emits(old(self)@, arch.deep_view(), now)
                },
    {
        let now = Timestamp::now();
        self.ping_at(arch, now)
    }

    /// Reports at `now` what is on screen. An observation equal to the
    /// current one changes nothing. Any other closes the open segment, if
    /// there is one, hands it out, and opens a new segment at `now`.
    pub fn ping_at(
        &mut self,
        arch: Option<Archetype>,
        now: Timestamp,
    ) -> (report: Option<ActivityRecord>)
        ensures
            final(self)@ == tracker_after(old(self)@, arch.deep_view(), now),
            report.deep_view() == tracker_emits(old(self)@, arch.deep_view(), now),
            report matches Some(record) ==> record@.well_formed(),
    {
        let changed = match &self.current_archetype {
            Some(current_arch) => match &arch {
                Some(in_arch) => *current_arch != *in_arch,
                None => true,
            },
            None => match &arch {
                Some(_) => true,
                None => false,
            },
        };
        if changed {
            let start_time = self.time_of_first_submission;
            let report = match &self.current_archetype {
                Some(cur_arch) => Some(Self::produce_record(cur_arch.clone(), start_time, now)),
                None => None,
            };
            self.current_archetype = arch;
            self.time_of_first_submission = now;
            report
        } else {
            None
        }
    }

    /// The record of a segment of `archetype` from `start_time` to
    /// `end_time`, not yet classified.
    pub fn produce_record(
        archetype: Archetype,
        start_time: Timestamp,
        end_time: Timestamp,
    ) -> (record: ActivityRecord)
        ensures
            record@ == closed_segment(archetype@, start_time, end_time),
            record@.well_formed(),
    {
        ActivityRecord {
            archetype,
            productivity: ProductivityStatus::Neutral,
            time_range: (start_time, end_time.later_of(start_time)),
        }
    }

    /// How long the current segment has lasted by the system clock, in
    /// nanoseconds.
    pub fn get_current_tracking_period(&self) -> (nanos: u128)
        ensures
            exists|now: Timestamp| nanos == #[trigger] nanos_between(self@.segment_start, now),
    {
        self.get_current_tracking_period_at(Timestamp::now())
    }

    /// How long the current segment has lasted at `now`, in nanoseconds; zero
    /// if `now` lies before its start.
    pub fn get_current_tracking_period_at(&self, now: Timestamp) -> (nanos: u128)
        ensures
            nanos == nanos_between(self@.segment_start, now),
    {
        now.nanos_since(&self.time_of_first_submission)
    }
}

/// One report to the tracker: what was on screen, and when.
pub struct Ping {
    pub observed: Option<ArchetypeView>,
    pub at: Timestamp,
}

/// The tracker after a series of reports.
pub open spec fn tracker_after_all(
    tracker: RecordTrackerView,
    pings: Seq<Ping>,
) -> RecordTrackerView
    decreases pings.len(),
{
    if pings.len() == 0 {
        tracker
    } else {
        tracker_after(
            tracker_after_all(tracker, pings.drop_last()),
            pings.last().observed,
            pings.last().at,
        )
    }
}

/// The records that a series of reports makes the tracker hand out, in
/// order.
pub open spec fn emitted_by(
    tracker: RecordTrackerView,
    pings: Seq<Ping>,
) -> Seq<ActivityRecordView>
    decreases pings.len(),
{
    if pings.len() == 0 {
        Seq::empty()
    } else {
        let before = emitted_by(tracker, pings.drop_last());
        match tracker_emits(
            tracker_after_all(tracker, pings.drop_last()),
            pings.last().observed,
            pings.last().at,
        ) {
            Some(record) => before.push(record),
            None => before,
        }
    }
}

/// Reporting the same observation twice in a row hands out at most one
/// record: the second report changes nothing and hands out nothing, and the
/// first hands out a record exactly when a different activity was open.
pub proof fn lemma_repeated_ping_emits_once(
    tracker: RecordTrackerView,
    observed: Option<ArchetypeView>,
    first: Timestamp,
    second: Timestamp,
)
    ensures
        tracker_after(tracker_after(tracker, observed, first), observed, second) == tracker_after(
            tracker,
            observed,
            first,
        ),
        tracker_emits(tracker_after(tracker, observed, first), observed, second) is None,
        tracker_emits(tracker, observed, first) is Some <==> tracker.current is Some
            && tracker.current != observed,
        emitted_by(
            tracker,
            seq![Ping { observed, at: first }, Ping { observed, at: second }],
        ).len() == if tracker.current is Some && tracker.current != observed {
            1nat
        } else {
            0nat
        },
{
    let pings = seq![Ping { observed, at: first }, Ping { observed, at: second }];
    let head = pings.drop_last();
    assert(head.drop_last() =~= Seq::<Ping>::empty());
    assert(head.last() == (Ping { observed, at: first }));
    assert(pings.last() == (Ping { observed, at: second }));
    assert(tracker_after_all(tracker, head.drop_last()) == tracker);
    assert(emitted_by(tracker, head.drop_last()) =~= Seq::<ActivityRecordView>::empty());
    assert(tracker_after_all(tracker, head) == tracker_after(tracker, observed, first));
    assert(emitted_by(tracker, head) == match tracker_emits(tracker, observed, first) {
        Some(record) => Seq::<ActivityRecordView>::empty().push(record),
        None => Seq::<ActivityRecordView>::empty(),
    });
    assert(emitted_by(tracker, pings) == emitted_by(tracker, head));
}

/// A fresh tracker that is told of `n` activities, each different from the
/// one before it and none earlier than the one before it, hands out `n - 1`
/// records. The record at position `i` is that of the activity reported at
/// position `i`, from the moment of that report to the moment of the next.
pub proof fn lemma_segments_span_between_changes(start: Timestamp, pings: Seq<Ping>)
    requires
        pings.len() >= 1,
        forall|i: int| 0 <= i < pings.len() ==> (#[trigger] pings[i]).observed is Some,
        forall|i: int, j: int|
            0 <= i && j == i + 1 && j < pings.len() ==> (#[trigger] pings[i]).observed != (
            #[trigger] pings[j]).observed,
        forall|i: int, j: int|
            0 <= i && j == i + 1 && j < pings.len() ==> (#[trigger] pings[i]).at.nanos <= (
            #[trigger] pings[j]).at.nanos,
    ensures
        emitted_by(RecordTrackerView { segment_start: start, current: None }, pings).len()
            == pings.len() - 1,
        forall|i: int, j: int|
            0 <= i && j == i + 1 && j < pings.len() ==> #[trigger] emitted_by(
                RecordTrackerView { segment_start: start, current: None },
                pings,
            )[i] == (ActivityRecordView {
                time_range: (pings[i].at, (#[trigger] pings[j]).at),
                productivity: ProductivityStatusView::Neutral,
                archetype: pings[i].observed->0,
            }),
        tracker_after_all(RecordTrackerView { segment_start: start, current: None }, pings)
            == (RecordTrackerView {
            segment_start: pings.last().at,
            current: pings.last().observed,
        }),
    decreases pings.len(),
{
    let fresh = RecordTrackerView { segment_start: start, current: None };
    let head = pings.drop_last();
    if pings.len() == 1 {
        assert(head =~= Seq::<Ping>::empty());
        assert(pings.last().observed is Some);
        assert(tracker_after_all(fresh, head) == fresh);
        assert(emitted_by(fresh, head) =~= Seq::<ActivityRecordView>::empty());
    } else {
        assert forall|i: int| 0 <= i < head.len() implies (#[trigger] head[i]).observed is Some by {
            assert(head[i] == pings[i]);
        }
        assert forall|i: int, j: int| 0 <= i && j == i + 1 && j < head.len() implies (
        #[trigger] head[i]).observed != (#[trigger] head[j]).observed by {
            assert(head[i] == pings[i] && head[j] == pings[j]);
        }
        assert forall|i: int, j: int| 0 <= i && j == i + 1 && j < head.len() implies (
        #[trigger] head[i]).at.nanos <= (#[trigger] head[j]).at.nanos by {
            assert(head[i] == pings[i] && head[j] == pings[j]);
        }
        lemma_segments_span_between_changes(start, head);
        let n = pings.len() as int;
        assert(head.last() == pings[n - 2]);
        assert(pings.last() == pings[n - 1]);
        assert(pings[n - 2].observed != pings[n - 1].observed);
        assert(pings[n - 2].at.nanos <= pings[n - 1].at.nanos);
        assert(pings[n - 2].observed is Some);
        let all = emitted_by(fresh, pings);
        let before = emitted_by(fresh, head);
        assert(all == before.push(
            closed_segment(pings[n - 2].observed->0, pings[n - 2].at, pings[n - 1].at),
        ));
        assert forall|i: int, j: int|
            0 <= i && j == i + 1 && j < pings.len() implies #[trigger] all[i]
            == (ActivityRecordView {
            time_range: (pings[i].at, (#[trigger] pings[j]).at),
            productivity: ProductivityStatusView::Neutral,
            archetype: pings[i].observed->0,
        }) by {
            if j < n - 1 {
                assert(head[i] == pings[i] && head[j] == pings[j]);
                assert(all[i] == before[i]);
            }
        }
    }
}

} // verus!
