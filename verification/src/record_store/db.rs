//! The container of the record store: for each day key the records of that
//! day, in the order in which they were appended.

use crate::record_store::date::{calendar_has, day_comes, day_key_date, iso_text, Date};
use crate::record_store::time::Timestamp;
use crate::record_store::utils::RecordStoreError;
use crate::record_store::{ActivityRecord, ActivityRecordView};
use vstd::prelude::*;

verus! {

/// The records of one day, as they are handed to and taken from a backend.
#[derive(Debug)]
pub struct DayPartition {
    pub key: String,
    pub records: Vec<ActivityRecord>,
}

/// Mathematical model of a [`DayPartition`].
pub struct DayPartitionView {
    pub key: Seq<char>,
    pub records: Seq<ActivityRecordView>,
}

impl View for DayPartition {
    type V = DayPartitionView;

    open spec fn view(&self) -> DayPartitionView {
        DayPartitionView { key: self.key@, records: self.records.deep_view() }
    }
}

impl DeepView for DayPartition {
    type V = DayPartitionView;

    open spec fn deep_view(&self) -> DayPartitionView {
        self@
    }
}

impl Clone for DayPartition {
    fn clone(&self) -> (r: Self)
        ensures
            r@ == self@,
    {
        let r = DayPartition { key: self.key.clone(), records: self.records.clone() };
        assert(r.records.deep_view() =~= self.records.deep_view());
        r
    }
}

/// The model of a container: day key to records.
pub type Days = Map<Seq<char>, Seq<ActivityRecordView>>;

/// The records kept under `key`, none where the key is absent.
pub open spec fn records_under(days: Days, key: Seq<char>) -> Seq<ActivityRecordView> {
    if days.dom().contains(key) {
        days[key]
    } else {
        Seq::empty()
    }
}

/// The container with `records` added at the end of those under `key`.
pub open spec fn extended(days: Days, key: Seq<char>, records: Seq<ActivityRecordView>) -> Days {
    days.insert(key, records_under(days, key) + records)
}

/// The container with `record` appended under `key`.
pub open spec fn appended(days: Days, key: Seq<char>, record: ActivityRecordView) -> Days {
    days.insert(key, records_under(days, key).push(record))
}

/// The container with `key` present: as it is where the key is there, with
/// no records under the key where it is not.
pub open spec fn with_day(days: Days, key: Seq<char>) -> Days {
    if days.dom().contains(key) {
        days
    } else {
        days.insert(key, Seq::empty())
    }
}

/// The container that a list of partitions stands for. Partitions that share
/// a key are joined in the order of the list.
pub open spec fn container_of(parts: Seq<DayPartitionView>) -> Days
    decreases parts.len(),
{
    if parts.len() == 0 {
        Map::empty()
    } else {
        extended(container_of(parts.drop_last()), parts.last().key, parts.last().records)
    }
}

/// No two partitions of the list share a key.
pub open spec fn distinct_keys(parts: Seq<DayPartitionView>) -> bool {
    forall|i: int, j: int|
        0 <= i < j < parts.len() ==> (#[trigger] parts[i]).key != (#[trigger] parts[j]).key
}

/// The keys of a container are those of the partitions it was made of.
pub proof fn lemma_container_keys(parts: Seq<DayPartitionView>, key: Seq<char>)
    ensures
        container_of(parts).dom().contains(key) <==> exists|i: int|
            0 <= i < parts.len() && (#[trigger] parts[i]).key == key,
    decreases parts.len(),
{
    if parts.len() > 0 {
        let head = parts.drop_last();
        lemma_container_keys(head, key);
        if container_of(parts).dom().contains(key) {
            if parts.last().key == key {
                assert(parts[parts.len() - 1].key == key);
            } else {
                let i = choose|i: int| 0 <= i < head.len() && (#[trigger] head[i]).key == key;
                assert(parts[i].key == key);
            }
        }
        if exists|i: int| 0 <= i < parts.len() && (#[trigger] parts[i]).key == key {
            let i = choose|i: int| 0 <= i < parts.len() && (#[trigger] parts[i]).key == key;
            if i < head.len() {
                assert(head[i].key == key);
            }
        }
    }
}

/// Where no two partitions share a key, the container holds under each
/// partition's key that partition's records.
pub proof fn lemma_container_lookup(parts: Seq<DayPartitionView>, i: int)
    requires
        distinct_keys(parts),
        0 <= i < parts.len(),
    ensures
        container_of(parts).dom().contains(parts[i].key),
        container_of(parts)[parts[i].key] == parts[i].records,
    decreases parts.len(),
{
    let head = parts.drop_last();
    let last = parts.last();
    if i == parts.len() - 1 {
        lemma_container_keys(head, last.key);
        if container_of(head).dom().contains(last.key) {
            let j = choose|j: int| 0 <= j < head.len() && (#[trigger] head[j]).key == last.key;
            assert(parts[j].key == parts[i].key);
        }
        assert(Seq::<ActivityRecordView>::empty() + last.records =~= last.records);
    } else {
        assert(head[i] == parts[i]);
        assert(distinct_keys(head)) by {
            assert forall|a: int, b: int| 0 <= a < b < head.len() implies (#[trigger] head[a]).key
                != (#[trigger] head[b]).key by {
                assert(head[a] == parts[a] && head[b] == parts[b]);
            }
        }
        lemma_container_lookup(head, i);
        assert(parts[i].key != parts[parts.len() - 1].key);
    }
}

/// Where no two partitions share a key, giving one partition other records
/// puts those records under its key in the container and changes nothing
/// else.
pub proof fn lemma_container_update(
    parts: Seq<DayPartitionView>,
    i: int,
    records: Seq<ActivityRecordView>,
)
    requires
        distinct_keys(parts),
        0 <= i < parts.len(),
    ensures
        container_of(parts.update(i, DayPartitionView { key: parts[i].key, records }))
            == container_of(parts).insert(parts[i].key, records),
    decreases parts.len(),
{
    let changed = parts.update(i, DayPartitionView { key: parts[i].key, records });
    let head = parts.drop_last();
    let last = parts.last();
    if i == parts.len() - 1 {
        assert(changed.drop_last() =~= head);
        lemma_container_keys(head, last.key);
        if container_of(head).dom().contains(last.key) {
            let j = choose|j: int| 0 <= j < head.len() && (#[trigger] head[j]).key == last.key;
            assert(parts[j].key == parts[i].key);
        }
        assert(Seq::<ActivityRecordView>::empty() + records =~= records);
        assert(container_of(changed) =~= container_of(parts).insert(parts[i].key, records));
    } else {
        assert(head[i] == parts[i]);
        assert(distinct_keys(head)) by {
            assert forall|a: int, b: int| 0 <= a < b < head.len() implies (#[trigger] head[a]).key
                != (#[trigger] head[b]).key by {
                assert(head[a] == parts[a] && head[b] == parts[b]);
            }
        }
        lemma_container_update(head, i, records);
        assert(changed.drop_last() =~= head.update(
            i,
            DayPartitionView { key: parts[i].key, records },
        ));
        assert(changed.last() == last);
        assert(parts[i].key != parts[parts.len() - 1].key);
        assert(container_of(changed) =~= container_of(parts).insert(parts[i].key, records));
    }
}

/// The dates that the keys of a container stand for.
pub open spec fn dates_of(days: Days) -> Set<(i32, u32, u32)> {
    Set::new(
        |date: (i32, u32, u32)|
            exists|key: Seq<char>| #[trigger]
                days.dom().contains(key) && day_key_date(key) == Some(date),
    )
}

/// The keys of a container that stand for the date `date`.
pub open spec fn keys_of_date(days: Days, date: (i32, u32, u32)) -> Set<Seq<char>> {
    Set::new(|key: Seq<char>| days.dom().contains(key) && day_key_date(key) == Some(date))
}

/// The keys of a container that stand for a day.
pub open spec fn day_keys(days: Days) -> Set<Seq<char>> {
    Set::new(|key: Seq<char>| days.dom().contains(key) && day_key_date(key) is Some)
}

/// The dates that a list of keys stands for: one for each key that is the
/// notation of a day, in the order of the keys.
pub open spec fn dates_in(keys: Seq<Seq<char>>) -> Seq<(i32, u32, u32)>
    decreases keys.len(),
{
    if keys.len() == 0 {
        Seq::empty()
    } else {
        match day_key_date(keys.last()) {
            Some(date) => dates_in(keys.drop_last()).push(date),
            None => dates_in(keys.drop_last()),
        }
    }
}

/// The keys of a list of partitions, in the order of the list.
pub open spec fn keys_of(parts: Seq<DayPartitionView>) -> Seq<Seq<char>> {
    Seq::new(parts.len(), |i: int| parts[i].key)
}

/// A date is among those that a list of keys stands for exactly when one of
/// the keys stands for it.
pub proof fn lemma_dates_in_contains(keys: Seq<Seq<char>>, date: (i32, u32, u32))
    ensures
        dates_in(keys).contains(date) <==> exists|j: int|
            0 <= j < keys.len() && day_key_date(#[trigger] keys[j]) == Some(date),
    decreases keys.len(),
{
    if keys.len() > 0 {
        let rest = keys.drop_last();
        lemma_dates_in_contains(rest, date);
        let found = dates_in(keys);
        if found.contains(date) {
            let k = choose|k: int| 0 <= k < found.len() && found[k] == date;
            if k < dates_in(rest).len() {
                assert(dates_in(rest)[k] == date);
                assert(dates_in(rest).contains(date));
                let j = choose|j: int|
                    0 <= j < rest.len() && day_key_date(#[trigger] rest[j]) == Some(date);
                assert(keys[j] == rest[j]);
            } else {
                assert(day_key_date(keys[keys.len() - 1]) == Some(date));
            }
        }
        if exists|j: int| 0 <= j < keys.len() && day_key_date(#[trigger] keys[j]) == Some(date) {
            let j = choose|j: int|
                0 <= j < keys.len() && day_key_date(#[trigger] keys[j]) == Some(date);
            if j < rest.len() {
                assert(rest[j] == keys[j]);
                assert(dates_in(rest).contains(date));
                let k = choose|k: int| 0 <= k < dates_in(rest).len() && dates_in(rest)[k] == date;
                assert(found[k] == date);
            } else {
                assert(found[found.len() - 1] == date);
            }
        }
    }
}

/// In a list of different keys the last key is apart from the others: the
/// others are different keys too, the last is not among them, and a key is
/// in the list exactly when it is the last or one of the others.
pub proof fn lemma_last_key_apart(keys: Seq<Seq<char>>)
    requires
        keys.no_duplicates(),
        keys.len() > 0,
    ensures
        keys.drop_last().no_duplicates(),
        !keys.drop_last().contains(keys.last()),
        forall|key: Seq<char>|
            keys.contains(key) <==> keys.drop_last().contains(key) || key == keys.last(),
{
    let rest = keys.drop_last();
    let last = keys.last();
    assert forall|i: int, j: int|
        0 <= i < rest.len() && 0 <= j < rest.len() && i != j implies rest[i] != rest[j] by {
        assert(rest[i] == keys[i] && rest[j] == keys[j]);
    }
    if rest.contains(last) {
        let i = choose|i: int| 0 <= i < rest.len() && rest[i] == last;
        assert(keys[i] == keys[keys.len() - 1]);
    }
    assert forall|key: Seq<char>| keys.contains(key) <==> rest.contains(key) || key == last by {
        if keys.contains(key) {
            let i = choose|i: int| 0 <= i < keys.len() && keys[i] == key;
            if i < rest.len() {
                assert(rest[i] == key);
            }
        }
        if rest.contains(key) {
            let i = choose|i: int| 0 <= i < rest.len() && rest[i] == key;
            assert(keys[i] == key);
        }
        if key == last {
            assert(keys[keys.len() - 1] == key);
        }
    }
}

/// Among the dates that a list of different keys stands for, a date occurs
/// as often as there are keys that stand for it.
pub proof fn lemma_dates_in_count(keys: Seq<Seq<char>>, date: (i32, u32, u32))
    requires
        keys.no_duplicates(),
    ensures
        Set::new(|key: Seq<char>| keys.contains(key) && day_key_date(key) == Some(date)).finite(),
        dates_in(keys).to_multiset().count(date) == Set::new(
            |key: Seq<char>| keys.contains(key) && day_key_date(key) == Some(date),
        ).len(),
    decreases keys.len(),
{
    broadcast use vstd::set::group_set_axioms, vstd::multiset::group_multiset_axioms;

    let standing = Set::new(
        |key: Seq<char>| keys.contains(key) && day_key_date(key) == Some(date),
    );
    if keys.len() == 0 {
        assert(standing =~= Set::empty());
        assert(dates_in(keys).to_multiset() =~= vstd::multiset::Multiset::empty()) by {
            dates_in(keys).to_multiset_ensures();
            assert(dates_in(keys).to_multiset().len() == 0);
        }
    } else {
        let rest = keys.drop_last();
        let last = keys.last();
        let before = Set::new(
            |key: Seq<char>| rest.contains(key) && day_key_date(key) == Some(date),
        );
        lemma_last_key_apart(keys);
        lemma_dates_in_count(rest, date);
        dates_in(rest).to_multiset_ensures();
        match day_key_date(last) {
            Some(read) => {
                assert(dates_in(keys).to_multiset() =~= dates_in(rest).to_multiset().insert(read));
                if read == date {
                    assert(standing =~= before.insert(last));
                } else {
                    assert(standing =~= before);
                }
            },
            None => {
                assert(standing =~= before);
            },
        }
    }
}

/// A list of different keys stands for as many dates as it has keys that
/// are the notation of a day.
pub proof fn lemma_dates_in_len(keys: Seq<Seq<char>>)
    requires
        keys.no_duplicates(),
    ensures
        Set::new(|key: Seq<char>| keys.contains(key) && day_key_date(key) is Some).finite(),
        dates_in(keys).len() == Set::new(
            |key: Seq<char>| keys.contains(key) && day_key_date(key) is Some,
        ).len(),
    decreases keys.len(),
{
    broadcast use vstd::set::group_set_axioms;

    let standing = Set::new(|key: Seq<char>| keys.contains(key) && day_key_date(key) is Some);
    if keys.len() == 0 {
        assert(standing =~= Set::empty());
    } else {
        let rest = keys.drop_last();
        let last = keys.last();
        let before = Set::new(|key: Seq<char>| rest.contains(key) && day_key_date(key) is Some);
        lemma_last_key_apart(keys);
        lemma_dates_in_len(rest);
        if day_key_date(last) is Some {
            assert(standing =~= before.insert(last));
        } else {
            assert(standing =~= before);
        }
    }
}

/// The keys of a list of partitions are the keys of the container that the
/// list stands for; where no two partitions share a key, no key comes twice.
pub proof fn lemma_keys_of(parts: Seq<DayPartitionView>)
    ensures
        forall|key: Seq<char>| keys_of(parts).contains(key) <==> container_of(parts).dom().contains(key),
        distinct_keys(parts) ==> keys_of(parts).no_duplicates(),
{
    let keys = keys_of(parts);
    assert forall|key: Seq<char>| keys.contains(key) <==> container_of(parts).dom().contains(
        key,
    ) by {
        lemma_container_keys(parts, key);
        if keys.contains(key) {
            let i = choose|i: int| 0 <= i < keys.len() && keys[i] == key;
            assert(parts[i].key == key);
        }
        if container_of(parts).dom().contains(key) {
            let i = choose|i: int| 0 <= i < parts.len() && (#[trigger] parts[i]).key == key;
            assert(keys[i] == key);
        }
    }
    if distinct_keys(parts) {
        assert forall|i: int, j: int|
            0 <= i < keys.len() && 0 <= j < keys.len() && i != j implies keys[i] != keys[j] by {
            if i < j {
                assert(parts[i].key != parts[j].key);
            } else {
                assert(parts[j].key != parts[i].key);
            }
        }
    }
}

/// Whether `opened` is what a container that was loaded as `loaded` holds
/// once it is opened at `now`: with the key of some day where a day comes
/// for `now`, as it was loaded where none comes.
pub open spec fn opened_at(loaded: Days, opened: Days, now: Timestamp) -> bool {
    if day_comes(now) {
        exists|today: Date| opened == #[trigger] with_day(loaded, today.key_text())
    } else {
        opened == loaded
    }
}

/// The container of the record store, held in memory.
#[derive(Debug)]
pub struct DB {
    partitions: Vec<DayPartition>,
}

impl View for DB {
    type V = Days;

    closed spec fn view(&self) -> Days {
        container_of(self.partitions.deep_view())
    }
}

impl DB {
    /// No day is kept twice.
    #[verifier::type_invariant]
    spec fn keys_are_distinct(self) -> bool {
        distinct_keys(self.partitions.deep_view())
    }

    /// The position of the partition that is kept under `key`.
    fn find(parts: &Vec<DayPartition>, key: &String) -> (found: Option<usize>)
        ensures
            match found {
                Some(i) => i < parts.len() && parts.deep_view()[i as int].key == key@,
                None => forall|j: int|
                    0 <= j < parts.len() ==> (#[trigger] parts.deep_view()[j]).key != key@,
            },
    {
        let mut i: usize = 0;
        while i < parts.len()
            invariant
                i <= parts.len(),
                forall|j: int| 0 <= j < i ==> (#[trigger] parts.deep_view()[j]).key != key@,
            decreases parts.len() - i,
        {
            if parts[i].key == *key {
                return Some(i);
            }
            i += 1;
        }
        None
    }

    /// Adds the records of `part` at the end of those kept under its key in
    /// `parts`; the key is made where it is absent.
    fn absorb_into(parts: &mut Vec<DayPartition>, part: DayPartition)
        requires
            distinct_keys(old(parts).deep_view()),
        ensures
            distinct_keys(final(parts).deep_view()),
            container_of(final(parts).deep_view()) == extended(
                container_of(old(parts).deep_view()),
                part@.key,
                part@.records,
            ),
    {
        let ghost before = parts.deep_view();
        match Self::find(parts, &part.key) {
            Some(i) => {
                let mut part = part;
                let ghost added = part.records.deep_view();
                let ghost kept = before[i as int];
                let ghost old_parts = parts@;
                let ghost added_raw = part.records@;
                parts[i].records.append(&mut part.records);
                proof {
                    let now = parts@;
                    assert(now.len() == old_parts.len());
                    assert(now[i as int].key == old_parts[i as int].key);
                    assert(now[i as int].records@ == old_parts[i as int].records@ + added_raw);
                    assert(now[i as int].records.deep_view() =~= kept.records + added);
                    assert forall|j: int| 0 <= j < now.len() && j != i implies now[j]
                        == old_parts[j] by {}
                    assert(parts.deep_view() =~= before.update(
                        i as int,
                        DayPartitionView { key: kept.key, records: kept.records + added },
                    ));
                    lemma_container_update(before, i as int, kept.records + added);
                    lemma_container_lookup(before, i as int);
                }
            },
            None => {
                parts.push(part);
                proof {
                    assert(parts.deep_view() =~= before.push(part@));
                    assert(parts.deep_view().drop_last() =~= before);
                    lemma_container_keys(before, part@.key);
                }
            },
        }
    }

    /// Adds the records of `part` at the end of those kept under its key.
    fn absorb(&mut self, part: DayPartition)
        ensures
            final(self)@ == extended(old(self)@, part@.key, part@.records),
    {
        proof {
            use_type_invariant(&*self);
        }
        let mut parts: Vec<DayPartition> = Vec::new();
        assert(parts.deep_view() =~= Seq::empty());
        std::mem::swap(&mut self.partitions, &mut parts);
        Self::absorb_into(&mut parts, part);
        std::mem::swap(&mut self.partitions, &mut parts);
    }

    /// The container that holds what was loaded and has today's key, by the
    /// system clock: whatever the clock reads, the container that
    /// [`DB::new_at`] gives for that reading.
    pub fn new(loaded: Vec<DayPartition>) -> (db: Self)
        ensures
            exists|now: Timestamp| #[trigger] opened_at(container_of(loaded.deep_view()), db@, now),
    {
        Self::new_at(loaded, Timestamp::now())
    }

    /// The container that holds what was loaded and has the key of the day
    /// that it is at `now`. Where no day comes for `now`, the container holds
    /// what was loaded and no more.
    pub fn new_at(loaded: Vec<DayPartition>, now: Timestamp) -> (db: Self)
        ensures
            opened_at(container_of(loaded.deep_view()), db@, now),
    {
        match Date::local_on(now) {
            Some(today) => Self::new_on(loaded, &today),
            None => Self::load(loaded),
        }
    }

    /// The container that holds what was loaded and has the key of `today`.
    pub fn new_on(loaded: Vec<DayPartition>, today: &Date) -> (db: Self)
        ensures
            db@ == with_day(container_of(loaded.deep_view()), today.key_text()),
    {
        let mut db = Self::load(loaded);
        db.ensure_day(today.day_key());
        db
    }

    /// The container that holds what was loaded. Partitions that share a
    /// key are joined in the order of the list.
    pub fn load(loaded: Vec<DayPartition>) -> (db: Self)
        ensures
            db@ == container_of(loaded.deep_view()),
    {
        let empty: Vec<DayPartition> = Vec::new();
        assert(empty.deep_view() =~= Seq::empty());
        let mut db = DB { partitions: empty };
        let ghost parts = loaded.deep_view();
        assert(parts.take(0) =~= Seq::empty());
        for part in it: loaded
            invariant
                it.seq().len() == parts.len(),
                forall|i: int| 0 <= i < parts.len() ==> it.seq()[i]@ == #[trigger] parts[i],
                db@ == container_of(parts.take(it.index() as int)),
        {
            let ghost done = it.index() as int;
            assert(parts.take(done + 1).drop_last() =~= parts.take(done));
            assert(parts.take(done + 1).last() == part@);
            db.absorb(part);
        }
        assert(parts.take(parts.len() as int) =~= parts);
        db
    }

    /// Makes sure that `key` is present.
    fn ensure_day(&mut self, key: String)
        ensures
            final(self)@ == with_day(old(self)@, key@),
    {
        let records: Vec<ActivityRecord> = Vec::new();
        let part = DayPartition { key, records };
        assert(part@.records =~= Seq::empty());
        assert(records_under(self@, part@.key) + part@.records =~= records_under(self@, part@.key));
        assert(extended(self@, part@.key, part@.records) =~= with_day(self@, key@));
        self.absorb(part);
    }

    /// The records of a day, or `NoDataOnDate` where the day's key is absent.
    pub fn read_records(&self, date: &Date) -> (records: Result<
        Vec<ActivityRecord>,
        RecordStoreError,
    >)
        ensures
            match records {
                Ok(found) => self@.dom().contains(date.key_text()) && found.deep_view()
                    == self@[date.key_text()],
                Err(error) => !self@.dom().contains(date.key_text()) && error
                    == RecordStoreError::NoDataOnDate(*date),
            },
    {
        proof {
            use_type_invariant(self);
        }
        let key = date.day_key();
        match Self::find(&self.partitions, &key) {
            Some(i) => {
                let found = self.partitions[i].records.clone();
                proof {
                    lemma_container_lookup(self.partitions.deep_view(), i as int);
                    assert(found.deep_view() =~= self.partitions[i as int].records.deep_view());
                }
                Ok(found)
            },
            None => {
                proof {
                    lemma_container_keys(self.partitions.deep_view(), key@);
                }
                Err(RecordStoreError::NoDataOnDate(*date))
            },
        }
    }

    /// Appends a record to those of a day; the day's key is made where it is
    /// absent.
    pub fn write_records(&mut self, date: &Date, record: ActivityRecord)
        ensures
            final(self)@ == appended(old(self)@, date.key_text(), record@),
            calendar_has(date@.0, date@.1, date@.2),
            0 <= date@.0 <= 9999 ==> date.key_text() == iso_text(date@.0, date@.1, date@.2),
    {
        let mut records: Vec<ActivityRecord> = Vec::new();
        records.push(record);
        let part = DayPartition { key: date.day_key(), records };
        assert(part@.records =~= seq![record@]);
        assert(records_under(self@, part@.key) + part@.records =~= records_under(
            self@,
            part@.key,
        ).push(record@));
        self.absorb(part);
    }

    /// The dates that the keys stand for, in no particular order: one date
    /// for each key that is the notation of a day, none for any other key.
    /// So a date comes as often as there are keys that stand for it, and a
    /// key of ten characters that stands for a day of the years 0 to 9999
    /// gives that day.
    pub fn get_available_dates(&self) -> (dates: Vec<Date>)
        ensures
            dates.deep_view().to_set() == dates_of(self@),
            dates.len() == day_keys(self@).len(),
            forall|date: (i32, u32, u32)|
                dates.deep_view().to_multiset().count(date) == (#[trigger] keys_of_date(
                    self@,
                    date,
                )).len(),
            forall|year: i32, month: u32, day: u32|
                0 <= year <= 9999 && calendar_has(year, month, day) && self@.dom().contains(
                    #[trigger] iso_text(year, month, day),
                ) ==> dates.deep_view().contains((year, month, day)),
    {
        proof {
            use_type_invariant(self);
        }
        let mut dates: Vec<Date> = Vec::new();
        let ghost parts = self.partitions.deep_view();
        let ghost keys = keys_of(parts);
        let mut i: usize = 0;
        assert(keys.take(0) =~= Seq::empty());
        assert(dates.deep_view() =~= Seq::empty());
        while i < self.partitions.len()
            invariant
                i <= self.partitions.len(),
                parts == self.partitions.deep_view(),
                keys == keys_of(parts),
                dates.deep_view() == dates_in(keys.take(i as int)),
                forall|j: int, year: i32, month: u32, day: u32|
                    0 <= j < i && 0 <= year <= 9999 && calendar_has(year, month, day) && (
                    #[trigger] keys[j]) == #[trigger] iso_text(year, month, day) ==> day_key_date(
                        keys[j],
                    ) == Some((year, month, day)),
            decreases self.partitions.len() - i,
        {
            let ghost before = dates.deep_view();
            assert(keys.take(i + 1).drop_last() =~= keys.take(i as int));
            assert(keys.take(i + 1).last() == keys[i as int]);
            assert(keys[i as int] == self.partitions@[i as int].key@);
            match Date::from_day_key(self.partitions[i].key.as_str()) {
                Some(date) => {
                    dates.push(date);
                    assert(dates.deep_view() =~= before.push(date@));
                },
                None => {},
            }
            i += 1;
        }
        proof {
            assert(keys.take(keys.len() as int) =~= keys);
            lemma_keys_of(parts);
            assert forall|date: (i32, u32, u32)|
                dates.deep_view().to_set().contains(date) <==> dates_of(self@).contains(date) by {
                lemma_dates_in_contains(keys, date);
                if dates.deep_view().contains(date) {
                    let j = choose|j: int|
                        0 <= j < keys.len() && day_key_date(#[trigger] keys[j]) == Some(date);
                    assert(keys.contains(keys[j]));
                    assert(self@.dom().contains(keys[j]));
                }
                if dates_of(self@).contains(date) {
                    let key = choose|key: Seq<char>| #[trigger]
                        self@.dom().contains(key) && day_key_date(key) == Some(date);
                    assert(keys.contains(key));
                    let j = choose|j: int| 0 <= j < keys.len() && keys[j] == key;
                    assert(day_key_date(keys[j]) == Some(date));
                }
            }
            assert(dates.deep_view().to_set() =~= dates_of(self@));
            lemma_dates_in_len(keys);
            assert(day_keys(self@) =~= Set::new(
                |key: Seq<char>| keys.contains(key) && day_key_date(key) is Some,
            ));
            assert forall|date: (i32, u32, u32)|
                dates.deep_view().to_multiset().count(date) == (#[trigger] keys_of_date(
                    self@,
                    date,
                )).len() by {
                lemma_dates_in_count(keys, date);
                assert(keys_of_date(self@, date) =~= Set::new(
                    |key: Seq<char>| keys.contains(key) && day_key_date(key) == Some(date),
                ));
            }
            assert forall|year: i32, month: u32, day: u32|
                0 <= year <= 9999 && calendar_has(year, month, day) && self@.dom().contains(
                    #[trigger] iso_text(year, month, day),
                ) implies dates.deep_view().contains((year, month, day)) by {
                let key = iso_text(year, month, day);
                assert(keys.contains(key));
                let j = choose|j: int| 0 <= j < keys.len() && keys[j] == key;
                assert(day_key_date(keys[j]) == Some((year, month, day)));
                lemma_dates_in_contains(keys, (year, month, day));
            }
        }
        dates
    }

    /// The container as a list of partitions, no two of which share a key,
    /// for a backend to keep.
    pub fn partitions(&self) -> (parts: &Vec<DayPartition>)
        ensures
            container_of(parts.deep_view()) == self@,
            distinct_keys(parts.deep_view()),
    {
        proof {
            use_type_invariant(self);
        }
        &self.partitions
    }
}

} // verus!
