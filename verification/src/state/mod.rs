//! The state of a tracking session: the idle timer, the tracker, the
//! classifier and the store, and the policy that replaces a window by
//! absence when the user has been idle for too long.

pub mod focus;
pub mod ui;

use crate::classifier::classifier::{classify_kind, ClassifierView};
use crate::classifier::Classifier;
use crate::record_store::date::{day_comes, Date};
use crate::record_store::db::{appended, records_under, Days};
use crate::record_store::store::Backend;
use crate::record_store::time::whole_secs_between;
use crate::record_store::utils::{
    answer_view, RecordStoreError, RecordStoreErrorView, NO_DAY_FAULT,
};
use crate::record_store::tracker::{tracker_after, tracker_emits, RecordTrackerView};
use crate::record_store::{
    ActivityRecordView, Archetype, ArchetypeView, RecordStore, RecordTracker, Timestamp,
};
use crate::tui::{Router, Routes};
use crate::window_manager::MouseState;
use vstd::prelude::*;

verus! {

/// All that a tracking session keeps between two ticks.
#[derive(Debug)]
pub struct AppState {
    last_moment_active: Timestamp,
    last_mouse_position: (i32, i32),
    last_active_window: Option<Archetype>,
    record_tracker: RecordTracker,
    record_store: RecordStore,
    record_classifier: Classifier,
    /// The screen that the terminal shows.
    pub router: Router,
}

/// Mathematical model of an [`AppState`].
pub struct AppStateView {
    /// When the user last gave input or the window last changed.
    pub last_moment_active: Timestamp,
    pub last_mouse_position: (i32, i32),
    /// What the window manager reported last.
    pub last_active_window: Option<ArchetypeView>,
    pub tracker: RecordTrackerView,
    pub store: Days,
    pub backend: Backend,
    pub classifier: ClassifierView,
    pub active_route: Routes,
}

impl View for AppState {
    type V = AppStateView;

    closed spec fn view(&self) -> AppStateView {
        AppStateView {
            last_moment_active: self.last_moment_active,
            last_mouse_position: self.last_mouse_position,
            last_active_window: self.last_active_window.deep_view(),
            tracker: self.record_tracker@,
            store: self.record_store@.days,
            backend: self.record_store@.backend,
            classifier: self.record_classifier@,
            active_route: self.router.active_route,
        }
    }
}

/// The session that starts at `now` over a store and a classifier: nothing
/// was observed yet, the idle timer and the tracker's segment start at
/// `now`, the pointer counts as resting at the origin, and the main screen
/// is shown.
pub open spec fn session_started(
    store: Days,
    backend: Backend,
    classifier: ClassifierView,
    now: Timestamp,
) -> AppStateView {
    AppStateView {
        last_moment_active: now,
        last_mouse_position: (0, 0),
        last_active_window: None,
        tracker: RecordTrackerView { segment_start: now, current: None },
        store,
        backend,
        classifier,
        active_route: Routes::Main,
    }
}

/// Whether the user counts as away at `now`: the reported window is the one
/// that was reported last, and more whole seconds than the timeout have
/// passed since the last input.
pub open spec fn counts_as_away(
    state: AppStateView,
    info: Option<ArchetypeView>,
    now: Timestamp,
) -> bool {
    info == state.last_active_window && whole_secs_between(state.last_moment_active, now)
        > state.classifier.afk_timeout_secs
}

/// What the tracker is told when the window manager reports `info` at `now`:
/// absence where the user counts as away, else the report itself.
pub open spec fn told_to_tracker(
    state: AppStateView,
    info: Option<ArchetypeView>,
    now: Timestamp,
) -> Option<ArchetypeView> {
    if counts_as_away(state, info, now) {
        Some(ArchetypeView::AFK)
    } else {
        info
    }
}

/// A record with the verdict of the classifier on what it shows.
pub open spec fn classified(
    classifier: ClassifierView,
    record: ActivityRecordView,
) -> ActivityRecordView {
    ActivityRecordView {
        productivity: classify_kind(classifier.activities, record.archetype),
        ..record
    }
}

/// The session after the window manager reported `info` at `now`, on the day
/// with the key `today`. A window that differs from the last report restarts
/// the idle timer, however long the user has been idle. The record that the
/// tracker hands out, if any, is classified and appended to the records of
/// the day.
pub open spec fn after_window_info(
    state: AppStateView,
    info: Option<ArchetypeView>,
    now: Timestamp,
    today: Seq<char>,
) -> AppStateView {
    let told = told_to_tracker(state, info, now);
    AppStateView {
        last_moment_active: if info != state.last_active_window {
            now
        } else {
            state.last_moment_active
        },
        last_active_window: info,
        tracker: tracker_after(state.tracker, told, now),
        store: match tracker_emits(state.tracker, told, now) {
            Some(record) => appended(state.store, today, classified(state.classifier, record)),
            None => state.store,
        },
        ..state
    }
}

/// The session after the pointer was seen at `mouse` at `now`: a pointer
/// that moved or a button that is held down restarts the idle timer.
pub open spec fn after_mouse_info(
    state: AppStateView,
    coords: (i32, i32),
    buttons: Seq<bool>,
    now: Timestamp,
) -> AppStateView {
    AppStateView {
        last_mouse_position: coords,
        last_moment_active: if coords != state.last_mouse_position || buttons.contains(true) {
            now
        } else {
            state.last_moment_active
        },
        ..state
    }
}

/// The session after the keys `keys` were seen held down at `now`: any key
/// restarts the idle timer.
pub open spec fn after_keys(state: AppStateView, keys: Seq<u8>, now: Timestamp) -> AppStateView {
    AppStateView {
        last_moment_active: if keys.len() > 0 {
            now
        } else {
            state.last_moment_active
        },
        ..state
    }
}

/// Whether a report of the window manager is owed a rewrite of the store: a
/// record was appended and the store is file backed.
pub open spec fn rewrite_owed(
    state: AppStateView,
    info: Option<ArchetypeView>,
    now: Timestamp,
) -> bool {
    state.backend == Backend::FileBacked && tracker_emits(
        state.tracker,
        told_to_tracker(state, info, now),
        now,
    ) is Some
}

/// Whether a session that was `before` is `after` once the window manager
/// reported `info` at `now`, with the answer `taken`. Where a day comes for
/// `now`, the session is that after the report on some day and the answer
/// says whether a rewrite is owed. Where none comes the session stays as it
/// was and the answer is the failure of a clock without a day.
pub open spec fn window_info_taken_at(
    before: AppStateView,
    after: AppStateView,
    info: Option<ArchetypeView>,
    now: Timestamp,
    taken: Result<bool, RecordStoreErrorView>,
) -> bool {
    if day_comes(now) {
        &&& taken == Ok::<bool, RecordStoreErrorView>(rewrite_owed(before, info, now))
        &&& exists|today: Date| after == #[trigger] after_window_info(
            before,
            info,
            now,
            today.key_text(),
        )
    } else {
        &&& taken == Err::<bool, RecordStoreErrorView>(
            RecordStoreErrorView::DBFailed(NO_DAY_FAULT@),
        )
        &&& after == before
    }
}

fn same_archetype(a: &Option<Archetype>, b: &Option<Archetype>) -> (r: bool)
    ensures
        r == (a.deep_view() == b.deep_view()),
{
    match a {
        Some(x) => match b {
            Some(y) => *x == *y,
            None => false,
        },
        None => match b {
            Some(_) => false,
            None => true,
        },
    }
}

fn clone_archetype(a: &Option<Archetype>) -> (r: Option<Archetype>)
    ensures
        r.deep_view() == a.deep_view(),
{
    match a {
        Some(x) => Some(x.clone()),
        None => None,
    }
}

impl AppState {
    /// A session over the given store and classifier that starts at the
    /// current time: whatever the clock reads, the session that
    /// [`AppState::new_at`] gives for that reading.
    pub fn new(store: RecordStore, classifier: Classifier) -> (state: Self)
        ensures
            exists|now: Timestamp| state@ == #[trigger] session_started(
                store@.days,
                store@.backend,
                classifier@,
                now,
            ),
    {
        Self::new_at(store, classifier, Timestamp::now())
    }

    /// A session over the given store and classifier that starts at `now`.
    pub fn new_at(store: RecordStore, classifier: Classifier, now: Timestamp) -> (state: Self)
        ensures
            state@ == session_started(store@.days, store@.backend, classifier@, now),
    {
        Self {
            last_moment_active: now,
            last_mouse_position: (0, 0),
            router: Router { active_route: Routes::Main },
            last_active_window: None,
            record_tracker: RecordTracker::new_at(now),
            record_store: store,
            record_classifier: classifier,
        }
    }

    /// Takes the report of the window manager at the current time: whatever
    /// the clock reads, the session does what
    /// [`AppState::update_window_info_at`] does for that reading.
    pub fn update_window_info(&mut self, info: Option<Archetype>) -> (taken: Result<
        bool,
        RecordStoreError,
    >)
        ensures
            exists|now: Timestamp| #[trigger]
                window_info_taken_at(
                    old(self)@,
                    final(self)@,
                    info.deep_view(),
                    now,
                    answer_view(taken),
                ),
    {
        self.update_window_info_at(info, Timestamp::now())
    }

    /// Takes the report of the window manager at `now`, on the day that it
    /// is at `now`. The session then behaves as
    /// [`AppState::update_window_info_on`] does for that day, and `Ok` says
    /// whether the caller must now have the backend rewrite the store. Where
    /// no day comes for `now`, the report is not taken: the session stays as
    /// it is and the failure says so.
    pub fn update_window_info_at(&mut self, info: Option<Archetype>, now: Timestamp) -> (taken:
        Result<bool, RecordStoreError>)
        ensures
            window_info_taken_at(
                old(self)@,
                final(self)@,
                info.deep_view(),
                now,
                answer_view(taken),
            ),
    {
        match Date::local_on(now) {
            Some(today) => Ok(self.update_window_info_on(info, now, &today)),
            None => Err(RecordStoreError::no_day()),
        }
    }

    /// Takes the report of the window manager at `now`, on the day `today`.
    /// The result says whether the caller must now have the backend rewrite
    /// the store: it must when a record was appended and the store is file
    /// backed.
    pub fn update_window_info_on(
        &mut self,
        info: Option<Archetype>,
        now: Timestamp,
        today: &Date,
    ) -> (rewrite: bool)
        ensures
            final(self)@ == after_window_info(old(self)@, info.deep_view(), now, today.key_text()),
            rewrite == rewrite_owed(old(self)@, info.deep_view(), now),
    {
        let is_same_window = same_archetype(&info, &self.last_active_window);
        let is_afk = is_same_window && self.get_afk_seconds_at(now)
            > self.record_classifier.afk_timeout();
        let record = if is_afk {
            self.record_tracker.ping_at(Some(Archetype::AFK), now)
        } else {
            if !is_same_window {
                self.last_moment_active = now;
                self.last_active_window = clone_archetype(&info);
            }
            self.record_tracker.ping_at(info, now)
        };
        match record {
            Some(rec) => {
                let mut rec = rec;
                self.record_classifier.classify(&mut rec);
                self.record_store.push_record_on(today, rec)
            },
            None => false,
        }
    }

    /// Takes what was seen of the pointer at the current time.
    pub fn update_mouse_info(&mut self, mouse_info: &MouseState)
        ensures
            exists|now: Timestamp| final(self)@ == #[trigger] after_mouse_info(
                old(self)@,
                mouse_info.coords,
                mouse_info.button_pressed@,
                now,
            ),
    {
        self.update_mouse_info_at(mouse_info, Timestamp::now())
    }

    /// Takes what was seen of the pointer at `now`.
    pub fn update_mouse_info_at(&mut self, mouse_info: &MouseState, now: Timestamp)
        ensures
            final(self)@ == after_mouse_info(
                old(self)@,
                mouse_info.coords,
                mouse_info.button_pressed@,
                now,
            ),
    {
        if self.last_mouse_position.0 != mouse_info.coords.0 || self.last_mouse_position.1
            != mouse_info.coords.1 {
            self.last_mouse_position = mouse_info.coords;
            self.timer_reset(now);
        }
        if mouse_info.any_button_pressed() {
            self.timer_reset(now)
        }
    }

    /// Takes the keys that are held down at the current time.
    pub fn update_keys(&mut self, comb: Vec<u8>)
        ensures
            exists|now: Timestamp| final(self)@ == #[trigger] after_keys(old(self)@, comb@, now),
    {
        self.update_keys_at(comb, Timestamp::now())
    }

    /// Takes the keys that are held down at `now`: any key restarts the idle
    /// timer.
    pub fn update_keys_at(&mut self, comb: Vec<u8>, now: Timestamp)
        ensures
            final(self)@ == after_keys(old(self)@, comb@, now),
    {
        if comb.len() > 0 {
            self.timer_reset(now);
        }
    }

    /// Whole seconds since the last input, by the system clock.
    pub fn get_afk_seconds(&self) -> (secs: u64)
        ensures
            exists|now: Timestamp| secs == #[trigger] whole_secs_between(
                self@.last_moment_active,
                now,
            ),
    {
        self.get_afk_seconds_at(Timestamp::now())
    }

    /// Whole seconds from the last input to `now`; zero if `now` is earlier.
    pub fn get_afk_seconds_at(&self, now: Timestamp) -> (secs: u64)
        ensures
            secs == whole_secs_between(self@.last_moment_active, now),
    {
        now.whole_secs_since(&self.last_moment_active)
    }

    /// Gets current tracking information
    pub fn get_current_archetype(&self) -> (current: &Option<Archetype>)
        ensures
            current.deep_view() == self@.tracker.current,
    {
        self.record_tracker.get_current_archetype()
    }

    /// The classifier of the session.
    pub fn classifier(&self) -> (classifier: &Classifier)
        ensures
            classifier@ == self@.classifier,
    {
        &self.record_classifier
    }

    /// The store of the session.
    pub fn store(&self) -> (store: &RecordStore)
        ensures
            store@.days == self@.store,
            store@.backend == self@.backend,
    {
        &self.record_store
    }

    /// The tracker of the session.
    pub fn tracker(&self) -> (tracker: &RecordTracker)
        ensures
            tracker@ == self@.tracker,
    {
        &self.record_tracker
    }

    fn timer_reset(&mut self, now: Timestamp)
        ensures
            final(self)@ == (AppStateView { last_moment_active: now, ..old(self)@ }),
    {
        self.last_moment_active = now;
    }
}

/// How absence comes about: a window that differs from the last report is
/// passed on as it is and restarts the idle timer, however long the user has
/// been idle. The same window is passed on while the idle time is within
/// the timeout and is replaced by absence once it is beyond; the idle timer
/// runs on in both cases.
pub proof fn lemma_idle_policy(state: AppStateView, info: Option<ArchetypeView>, now: Timestamp)
    ensures
        info != state.last_active_window ==> told_to_tracker(state, info, now) == info
            && after_window_info(state, info, now, Seq::empty()).last_moment_active == now,
        info == state.last_active_window ==> after_window_info(
            state,
            info,
            now,
            Seq::empty(),
        ).last_moment_active == state.last_moment_active,
        info == state.last_active_window && whole_secs_between(state.last_moment_active, now)
            <= state.classifier.afk_timeout_secs ==> told_to_tracker(state, info, now) == info,
        info == state.last_active_window && whole_secs_between(state.last_moment_active, now)
            > state.classifier.afk_timeout_secs ==> told_to_tracker(state, info, now) == Some(
            ArchetypeView::AFK,
        ),
{
}

/// A report of the window manager adds at most one record to the store, under
/// the key of the day and after those that were there. The record is that of
/// the segment that the tracker closed, with the classifier's verdict, and
/// it does not end before it starts. Without such a segment the store stays
/// as it is.
pub proof fn lemma_session_appends_closed_segments(
    state: AppStateView,
    info: Option<ArchetypeView>,
    now: Timestamp,
    today: Seq<char>,
)
    ensures
        match tracker_emits(state.tracker, told_to_tracker(state, info, now), now) {
            Some(record) => {
                &&& record.well_formed()
                &&& classified(state.classifier, record).well_formed()
                &&& state.tracker.current == Some(record.archetype)
                &&& record.time_range.0 == state.tracker.segment_start
                &&& after_window_info(state, info, now, today).store.dom().contains(today)
                &&& after_window_info(state, info, now, today).store[today] == records_under(
                    state.store,
                    today,
                ).push(classified(state.classifier, record))
            },
            None => after_window_info(state, info, now, today).store == state.store,
        },
{
}

} // verus!
