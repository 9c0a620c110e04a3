//! The record store: a container of records by day, and the kind of backend
//! that keeps it between sessions.

use crate::record_store::date::{calendar_has, day_comes, iso_text, Date};
use crate::record_store::time::Timestamp;
use crate::record_store::db::{
    appended, container_of, dates_of, day_keys, distinct_keys, keys_of_date, opened_at,
    records_under, with_day, DayPartition, DayPartitionView, Days, DB,
};
use crate::record_store::utils::{
    answer_view, RecordStoreError, RecordStoreErrorView, NO_DAY_FAULT,
};
use crate::record_store::{ActivityRecord, ActivityRecordView};
use vstd::prelude::*;

verus! {

/// Where the container is kept between sessions. It is chosen once, when the
/// store is opened.
#[derive(Debug, Clone, Copy, PartialEq, Eq, Structural)]
pub enum Backend {
    /// In a file, which is rewritten after every change.
    FileBacked,
    /// Nowhere: the records are lost when the session ends.
    InMemory,
}

/// The records of all days, partitioned by day.
#[derive(Debug)]
pub struct RecordStore {
    backend: Backend,
    db: DB,
}

/// Mathematical model of a [`RecordStore`].
pub struct RecordStoreView {
    /// The records of each day, by the day's key.
    pub days: Days,
    /// Where the container is kept between sessions.
    pub backend: Backend,
}

impl View for RecordStore {
    type V = RecordStoreView;

    closed spec fn view(&self) -> RecordStoreView {
        RecordStoreView { days: self.db@, backend: self.backend }
    }
}

/// Whether a store that was `before` is `after` once a record was to be
/// appended at `now`, with the answer `pushed`. Where a day comes for `now`
/// the record is appended under the key of some day and the answer says
/// whether a rewrite is owed, which it is for a store that is file backed.
/// Where none comes the store stays as it was and the answer is the failure
/// of a clock without a day.
pub open spec fn pushed_at(
    before: RecordStoreView,
    after: RecordStoreView,
    record: ActivityRecordView,
    now: Timestamp,
    pushed: Result<bool, RecordStoreErrorView>,
) -> bool {
    if day_comes(now) {
        &&& pushed == Ok::<bool, RecordStoreErrorView>(before.backend == Backend::FileBacked)
        &&& after.backend == before.backend
        &&& exists|today: Date| after.days == #[trigger] appended(
            before.days,
            today.key_text(),
            record,
        )
    } else {
        &&& pushed == Err::<bool, RecordStoreErrorView>(
            RecordStoreErrorView::DBFailed(NO_DAY_FAULT@),
        )
        &&& after == before
    }
}

/// Whether `records` are what a container gives as the records of today at
/// `now`: those under the key of some day where a day comes for `now`, none
/// where no day comes.
pub open spec fn queried_at(days: Days, records: Seq<ActivityRecordView>, now: Timestamp) -> bool {
    if day_comes(now) {
        exists|today: Date| records == #[trigger] records_under(days, today.key_text())
    } else {
        records == Seq::<ActivityRecordView>::empty()
    }
}

impl RecordStore {
    /// The store over what a backend has loaded, with today's key by the
    /// system clock: whatever the clock reads, the store that
    /// [`RecordStore::new_at`] gives for that reading.
    pub fn new(backend: Backend, loaded: Vec<DayPartition>) -> (store: Self)
        ensures
            store@.backend == backend,
            exists|now: Timestamp| #[trigger]
                opened_at(container_of(loaded.deep_view()), store@.days, now),
    {
        Self::new_at(backend, loaded, Timestamp::now())
    }

    /// The store over what a backend has loaded, with the key of the day that
    /// it is at `now`. Where no day comes for `now`, the store holds what was
    /// loaded and no more.
    pub fn new_at(backend: Backend, loaded: Vec<DayPartition>, now: Timestamp) -> (store: Self)
        ensures
            store@.backend == backend,
            opened_at(container_of(loaded.deep_view()), store@.days, now),
    {
        Self { backend, db: DB::new_at(loaded, now) }
    }

    /// The store over what a backend has loaded, with the key of `today`.
    pub fn new_on(backend: Backend, loaded: Vec<DayPartition>, today: &Date) -> (store: Self)
        ensures
            store@.backend == backend,
            store@.days == with_day(container_of(loaded.deep_view()), today.key_text()),
    {
        Self { backend, db: DB::new_on(loaded, today) }
    }

    /// The backend that the store was opened with.
    pub fn backend(&self) -> (backend: Backend)
        ensures
            backend == self@.backend,
    {
        self.backend
    }

    /// The dates on which something was kept, in no particular order: one
    /// date for each key that is the notation of a day. So a date comes as
    /// often as there are keys that stand for it, and a key of ten
    /// characters that stands for a day of the years 0 to 9999 gives that
    /// day.
    pub fn query_dates(&self) -> (dates: Vec<Date>)
        ensures
            dates.deep_view().to_set() == dates_of(self@.days),
            dates.len() == day_keys(self@.days).len(),
            forall|date: (i32, u32, u32)|
                dates.deep_view().to_multiset().count(date) == (#[trigger] keys_of_date(
                    self@.days,
                    date,
                )).len(),
            forall|year: i32, month: u32, day: u32|
                0 <= year <= 9999 && calendar_has(year, month, day) && self@.days.dom().contains(
                    #[trigger] iso_text(year, month, day),
                ) ==> dates.deep_view().contains((year, month, day)),
    {
        self.db.get_available_dates()
    }

    /// Appends a record to those of today, by the system clock: whatever
    /// the clock reads, the store does what [`RecordStore::push_record_at`]
    /// does for that reading.
    pub fn push_record(&mut self, record: ActivityRecord) -> (pushed: Result<
        bool,
        RecordStoreError,
    >)
        ensures
            exists|now: Timestamp| #[trigger]
                pushed_at(old(self)@, final(self)@, record@, now, answer_view(pushed)),
    {
        self.push_record_at(Timestamp::now(), record)
    }

    /// Appends a record to those of the day that it is at `now`. `Ok` says
    /// whether the caller must now have the backend rewrite the container:
    /// it must exactly when the store is file backed. Where no day comes for
    /// `now`, nothing is appended and the failure says so.
    pub fn push_record_at(&mut self, now: Timestamp, record: ActivityRecord) -> (pushed: Result<
        bool,
        RecordStoreError,
    >)
        ensures
            pushed_at(old(self)@, final(self)@, record@, now, answer_view(pushed)),
    {
        match Date::local_on(now) {
            Some(today) => Ok(self.push_record_on(&today, record)),
            None => Err(RecordStoreError::no_day()),
        }
    }

    /// Appends a record to those of `today`; the day's key is made where it
    /// is absent. The result says whether the caller must now have the
    /// backend rewrite the container: it must exactly when the store is file
    /// backed.
    pub fn push_record_on(&mut self, today: &Date, record: ActivityRecord) -> (rewrite: bool)
        ensures
            final(self)@.backend == old(self)@.backend,
            rewrite == (old(self)@.backend == Backend::FileBacked),
            final(self)@.days == appended(old(self)@.days, today.key_text(), record@),
            calendar_has(today@.0, today@.1, today@.2),
            0 <= today@.0 <= 9999 ==> today.key_text() == iso_text(today@.0, today@.1, today@.2),
    {
        self.db.write_records(today, record);
        match self.backend {
            Backend::FileBacked => true,
            Backend::InMemory => false,
        }
    }

    /// The records of today, by the system clock: whatever the clock reads,
    /// the records that [`RecordStore::query_records_at`] gives for that
    /// reading.
    pub fn query_records(&self) -> (records: Vec<ActivityRecord>)
        ensures
            exists|now: Timestamp| #[trigger] queried_at(self@.days, records.deep_view(), now),
    {
        self.query_records_at(Timestamp::now())
    }

    /// The records of the day that it is at `now`; none where the day's key
    /// is absent, and none where no day comes for `now`.
    pub fn query_records_at(&self, now: Timestamp) -> (records: Vec<ActivityRecord>)
        ensures
            queried_at(self@.days, records.deep_view(), now),
    {
        match Date::local_on(now) {
            Some(today) => self.query_records_on(&today),
            None => {
                let records: Vec<ActivityRecord> = Vec::new();
                assert(records.deep_view() =~= Seq::empty());
                records
            },
        }
    }

    /// The records of `today`; none where the day's key is absent.
    pub fn query_records_on(&self, today: &Date) -> (records: Vec<ActivityRecord>)
        ensures
            records.deep_view() == records_under(self@.days, today.key_text()),
    {
        match self.db.read_records(today) {
            Ok(records) => records,
            Err(_) => {
                let records: Vec<ActivityRecord> = Vec::new();
                assert(records.deep_view() =~= Seq::empty());
                records
            },
        }
    }

    /// The records of a day. A day whose key is absent gives `NoDataOnDate`,
    /// which tells a day that was never tracked from one without records.
    pub fn query_records_by_date(&self, date: &Date) -> (records: Result<
        Vec<ActivityRecord>,
        RecordStoreError,
    >)
        ensures
            match records {
                Ok(found) => self@.days.dom().contains(date.key_text()) && found.deep_view()
                    == self@.days[date.key_text()],
                Err(error) => !self@.days.dom().contains(date.key_text()) && error
                    == RecordStoreError::NoDataOnDate(*date),
            },
    {
        self.db.read_records(date)
    }

    /// The store as it is once its container was handed out for keeping and
    /// a store was opened on the day `today` over what was kept: it holds
    /// every record that this store holds, under the same key and in the
    /// same order, and the key of `today`.
    pub fn reopened_on(&self, today: &Date) -> (store: Self)
        ensures
            store@.backend == self@.backend,
            store@.days == with_day(self@.days, today.key_text()),
    {
        let handed_out = self.snapshot();
        let kept = handed_out.clone();
        assert(kept.deep_view() =~= handed_out.deep_view());
        Self::new_on(self.backend, kept, today)
    }

    /// The container as a list of partitions, no two of which share a key,
    /// for the backend to keep. Loading that list gives the same container
    /// again.
    pub fn snapshot(&self) -> (parts: &Vec<DayPartition>)
        ensures
            container_of(parts.deep_view()) == self@.days,
            distinct_keys(parts.deep_view()),
    {
        self.db.partitions()
    }
}

/// Appending keeps the order: the records under the key are those that were
/// there, then the appended one. Other keys keep their records.
pub proof fn lemma_append_then_query(
    days: Days,
    key: Seq<char>,
    record: ActivityRecordView,
    other: Seq<char>,
)
    ensures
        appended(days, key, record).dom().contains(key),
        records_under(appended(days, key, record), key) == records_under(days, key).push(record),
        other != key ==> records_under(appended(days, key, record), other) == records_under(
            days,
            other,
        ),
        other != key ==> (appended(days, key, record).dom().contains(other)
            <==> days.dom().contains(other)),
{
}

/// The container after the records of `records` were appended under `key`,
/// one after the other.
pub open spec fn appended_all(days: Days, key: Seq<char>, records: Seq<ActivityRecordView>) -> Days
    decreases records.len(),
{
    if records.len() == 0 {
        days
    } else {
        appended(appended_all(days, key, records.drop_last()), key, records.last())
    }
}

/// What was appended is found again after the container was handed to a
/// backend and loaded from it. A store that is opened, on whatever day, over
/// a list of partitions that stands for the container holds under the key of
/// the appends the records that were there before and then the appended
/// ones, in the order of the appends. At least one record was appended, or
/// the key was there before.
pub proof fn lemma_round_trip(
    days: Days,
    key: Seq<char>,
    records: Seq<ActivityRecordView>,
    kept: Seq<DayPartitionView>,
    reopened_on: Seq<char>,
)
    requires
        container_of(kept) == appended_all(days, key, records),
        records.len() > 0 || days.dom().contains(key),
    ensures
        with_day(container_of(kept), reopened_on).dom().contains(key),
        with_day(container_of(kept), reopened_on)[key] == records_under(days, key) + records,
{
    lemma_appended_all(days, key, records);
}

/// Appending several records under a key puts them, in order, after those
/// that were there.
pub proof fn lemma_appended_all(days: Days, key: Seq<char>, records: Seq<ActivityRecordView>)
    ensures
        records_under(appended_all(days, key, records), key) == records_under(days, key) + records,
        records.len() > 0 ==> appended_all(days, key, records).dom().contains(key),
        appended_all(days, key, records).dom().contains(key) <==> records.len() > 0
            || days.dom().contains(key),
    decreases records.len(),
{
    if records.len() == 0 {
        assert(records_under(days, key) + records =~= records_under(days, key));
    } else {
        lemma_appended_all(days, key, records.drop_last());
        assert((records_under(days, key) + records.drop_last()).push(records.last())
            =~= records_under(days, key) + records);
    }
}

} // verus!
