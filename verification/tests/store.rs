use rtrackr::record_store::date::Date;
use rtrackr::record_store::db::{DayPartition, DB};
use rtrackr::record_store::opening::{
    advance, first_phase, OpenEvent, OpenPhase, OpenStep, DB_FILE_NAME, FALLBACK_NOTICE,
};
use rtrackr::record_store::store::Backend;
use rtrackr::record_store::utils::{RecordStoreError, NO_DAY_FAULT};
use rtrackr::record_store::{
    ActivityRecord, Archetype, ProductivityStatus, RecordStore, Timestamp,
};

fn s(text: &str) -> String {
    String::from(text)
}

fn record(title: &str, from: u64, to: u64) -> ActivityRecord {
    ActivityRecord {
        time_range: (Timestamp::from_secs(from), Timestamp::from_secs(to)),
        productivity: ProductivityStatus::Productive(s("work")),
        archetype: Archetype::ActiveWindow(s(title), s("app"), s("class")),
    }
}

fn day(year: i32, month: u32, day: u32) -> Date {
    Date::from_ymd(year, month, day).unwrap()
}

fn keys_of(parts: &Vec<DayPartition>) -> Vec<String> {
    let mut keys: Vec<String> = parts.iter().map(|part| part.key.clone()).collect();
    keys.sort();
    keys
}

#[test]
fn dates_are_days_of_the_calendar() {
    assert!(Date::from_ymd(2020, 5, 6).is_some());
    assert!(Date::from_ymd(2020, 2, 29).is_some());
    assert!(Date::from_ymd(2021, 2, 29).is_none());
    assert!(Date::from_ymd(2020, 4, 31).is_none());
    assert!(Date::from_ymd(2020, 0, 1).is_none());
    assert!(Date::from_ymd(2020, 13, 1).is_none());
    assert!(Date::from_ymd(2020, 1, 0).is_none());
    assert!(Date::from_ymd(400000, 1, 1).is_none());
    let date = day(2020, 5, 6);
    assert_eq!((date.year(), date.month(), date.day()), (2020, 5, 6));
}

#[test]
fn day_keys_are_written_year_month_day() {
    assert_eq!(day(2020, 5, 6).day_key(), "2020-05-06");
    assert_eq!(day(1999, 12, 31).day_key(), "1999-12-31");
    assert_eq!(day(987, 1, 2).day_key(), "0987-01-02");
}

#[test]
fn day_keys_are_read_back() {
    assert_eq!(Date::from_day_key("2020-05-06"), Some(day(2020, 5, 6)));
    assert_eq!(Date::from_day_key("2020-05-05"), Some(day(2020, 5, 5)));
    assert_eq!(Date::from_day_key("2020-02-30"), None);
    assert_eq!(Date::from_day_key("yesterday"), None);
    assert_eq!(Date::from_day_key(""), None);
    assert_eq!(Date::from_day_key("2020-05-06 trailing"), None);
}

#[test]
fn today_is_a_day_with_a_key() {
    let today = Date::today().unwrap();
    assert!(today.year() >= 2024);
    assert_eq!(Date::from_ymd(today.year(), today.month(), today.day()), Some(today));
    assert_eq!(Date::from_day_key(&today.day_key()), Some(today));
    assert_eq!(today.day_key().len(), 10);
}

#[test]
fn new_container_has_the_key_of_today() {
    let today = day(2020, 5, 6);
    let db = DB::new_on(Vec::new(), &today);
    assert_eq!(db.read_records(&today).unwrap(), Vec::new());
    assert_eq!(keys_of(db.partitions()), vec![s("2020-05-06")]);
    let db = DB::new(Vec::new());
    assert_eq!(db.read_records(&Date::today().unwrap()).unwrap(), Vec::new());
}

#[test]
fn unknown_date_is_told_from_an_empty_day() {
    let today = day(2020, 5, 6);
    let other = day(2020, 5, 7);
    let db = DB::new_on(Vec::new(), &today);
    match db.read_records(&other) {
        Err(RecordStoreError::NoDataOnDate(date)) => assert_eq!(date, other),
        found => panic!("unexpected answer {:?}", found),
    }
    let store = RecordStore::new_on(Backend::InMemory, Vec::new(), &today);
    assert_eq!(store.query_records_by_date(&today).unwrap(), Vec::new());
    assert!(matches!(
        store.query_records_by_date(&other),
        Err(RecordStoreError::NoDataOnDate(date)) if date == other
    ));
    assert_eq!(store.query_records_on(&other), Vec::new());
}

#[test]
fn records_are_kept_in_the_order_of_the_appends() {
    let today = day(2020, 5, 6);
    let tomorrow = day(2020, 5, 7);
    let mut db = DB::new_on(Vec::new(), &today);
    db.write_records(&today, record("a", 0, 1));
    db.write_records(&tomorrow, record("x", 5, 6));
    db.write_records(&today, record("b", 1, 2));
    db.write_records(&today, record("c", 2, 3));
    assert_eq!(
        db.read_records(&today).unwrap(),
        vec![record("a", 0, 1), record("b", 1, 2), record("c", 2, 3)]
    );
    assert_eq!(db.read_records(&tomorrow).unwrap(), vec![record("x", 5, 6)]);
    assert_eq!(keys_of(db.partitions()), vec![s("2020-05-06"), s("2020-05-07")]);
}

#[test]
fn appended_records_survive_a_reopening() {
    let today = day(2020, 5, 6);
    let mut store = RecordStore::new_on(Backend::FileBacked, Vec::new(), &today);
    assert_eq!(store.push_record_on(&today, record("a", 0, 10)), true);
    assert_eq!(store.push_record_on(&today, record("b", 10, 15)), true);
    let kept: Vec<DayPartition> = store.snapshot().clone();
    drop(store);

    let later = day(2020, 5, 9);
    let reopened = RecordStore::new_on(Backend::FileBacked, kept, &later);
    assert_eq!(
        reopened.query_records_by_date(&today).unwrap(),
        vec![record("a", 0, 10), record("b", 10, 15)]
    );
    assert_eq!(reopened.query_records_on(&later), Vec::new());
    assert_eq!(reopened.query_records_by_date(&later).unwrap(), Vec::new());
    let mut dates = reopened.query_dates();
    dates.sort_by_key(|date| (date.year(), date.month(), date.day()));
    assert_eq!(dates, vec![today, later]);
}

#[test]
fn loading_joins_partitions_that_share_a_key() {
    let today = day(2020, 5, 6);
    let loaded = vec![
        DayPartition { key: s("2020-05-06"), records: vec![record("a", 0, 1)] },
        DayPartition { key: s("2020-05-05"), records: vec![record("x", 0, 1)] },
        DayPartition { key: s("2020-05-06"), records: vec![record("b", 1, 2)] },
    ];
    let db = DB::new_on(loaded, &today);
    assert_eq!(db.read_records(&today).unwrap(), vec![record("a", 0, 1), record("b", 1, 2)]);
    assert_eq!(db.partitions().len(), 2);
}

#[test]
fn available_dates_skip_keys_that_are_no_days() {
    let today = day(2020, 5, 6);
    let loaded = vec![
        DayPartition { key: s("2020-05-05"), records: Vec::new() },
        DayPartition { key: s("scratch"), records: vec![record("a", 0, 1)] },
    ];
    let db = DB::new_on(loaded, &today);
    let mut dates = db.get_available_dates();
    dates.sort_by_key(|date| (date.year(), date.month(), date.day()));
    assert_eq!(dates, vec![day(2020, 5, 5), day(2020, 5, 6)]);
    assert_eq!(db.partitions().len(), 3);
}

#[test]
fn store_in_memory_asks_for_no_rewrite() {
    let today = day(2020, 5, 6);
    let mut store = RecordStore::new_on(Backend::InMemory, Vec::new(), &today);
    assert_eq!(store.backend(), Backend::InMemory);
    assert_eq!(store.push_record_on(&today, record("a", 0, 10)), false);
    assert_eq!(store.query_records_on(&today), vec![record("a", 0, 10)]);
    assert_eq!(store.query_dates(), vec![today]);
}

#[test]
fn store_follows_the_system_date() {
    let mut store = RecordStore::new(Backend::FileBacked, Vec::new());
    assert_eq!(store.backend(), Backend::FileBacked);
    assert_eq!(store.query_records(), Vec::new());
    assert_eq!(store.push_record(record("a", 0, 10)).unwrap(), true);
    assert_eq!(store.query_records(), vec![record("a", 0, 10)]);
    let today = Date::today().unwrap();
    assert_eq!(store.query_records_by_date(&today).unwrap(), vec![record("a", 0, 10)]);
    assert_eq!(store.query_dates(), vec![today]);
}

#[test]
fn opening_runs_through_directory_file_and_load() {
    assert_eq!(first_phase(), OpenPhase::AcquireDirectory);
    assert!(matches!(
        advance(OpenPhase::AcquireDirectory, OpenEvent::DirectoryReady),
        OpenStep::Next(OpenPhase::OpenFile)
    ));
    assert!(matches!(
        advance(OpenPhase::OpenFile, OpenEvent::FileOpened { existed: true }),
        OpenStep::Next(OpenPhase::Load)
    ));
    assert!(matches!(
        advance(OpenPhase::OpenFile, OpenEvent::FileOpened { existed: false }),
        OpenStep::Next(OpenPhase::WriteEmpty)
    ));
    assert!(matches!(
        advance(OpenPhase::WriteEmpty, OpenEvent::Written),
        OpenStep::Next(OpenPhase::Load)
    ));
    let loaded = vec![DayPartition { key: s("2020-05-06"), records: vec![record("a", 0, 1)] }];
    match advance(OpenPhase::Load, OpenEvent::Loaded(loaded)) {
        OpenStep::Ready { backend, loaded, notice } => {
            assert_eq!(backend, Backend::FileBacked);
            assert_eq!(notice, None);
            assert_eq!(loaded.len(), 1);
            assert_eq!(loaded[0].key, "2020-05-06");
            assert_eq!(loaded[0].records, vec![record("a", 0, 1)]);
        },
        step => panic!("unexpected step {:?}", step),
    }
}

#[test]
fn opening_falls_back_to_memory() {
    let failures = [
        (OpenPhase::AcquireDirectory, OpenEvent::DirectoryFailed(s("permission denied")), "permission denied"),
        (OpenPhase::OpenFile, OpenEvent::FileFailed, "Failed to switch database to a new file"),
        (OpenPhase::WriteEmpty, OpenEvent::WriteFailed(s("disk full")), "disk full"),
    ];
    for (phase, event, fault) in failures {
        match advance(phase, event) {
            OpenStep::Ready { backend, loaded, notice } => {
                assert_eq!(backend, Backend::InMemory);
                assert_eq!(loaded.len(), 0);
                assert_eq!(notice, Some(format!("{}{}", FALLBACK_NOTICE, fault)));
                let today = day(2020, 5, 6);
                let mut store = RecordStore::new_on(backend, loaded, &today);
                assert_eq!(store.push_record_on(&today, record("a", 0, 10)), false);
                assert_eq!(store.query_records_on(&today), vec![record("a", 0, 10)]);
            },
            step => panic!("unexpected step {:?}", step),
        }
    }
    assert!(FALLBACK_NOTICE.contains("WILL NOT be saved"));
}

#[test]
fn opening_fails_only_on_a_load_that_failed() {
    match advance(OpenPhase::Load, OpenEvent::LoadFailed(s("unexpected end of file"))) {
        OpenStep::Failed(RecordStoreError::DBFailed(fault)) => {
            assert_eq!(fault, "unexpected end of file")
        },
        step => panic!("unexpected step {:?}", step),
    }
}

#[test]
fn opening_ignores_events_that_do_not_answer_the_phase() {
    assert!(matches!(
        advance(OpenPhase::AcquireDirectory, OpenEvent::Loaded(Vec::new())),
        OpenStep::Next(OpenPhase::AcquireDirectory)
    ));
    assert!(matches!(
        advance(OpenPhase::OpenFile, OpenEvent::DirectoryFailed(s("x"))),
        OpenStep::Next(OpenPhase::OpenFile)
    ));
    assert!(matches!(
        advance(OpenPhase::WriteEmpty, OpenEvent::LoadFailed(s("x"))),
        OpenStep::Next(OpenPhase::WriteEmpty)
    ));
    assert!(matches!(
        advance(OpenPhase::Load, OpenEvent::WriteFailed(s("x"))),
        OpenStep::Next(OpenPhase::Load)
    ));
}

#[test]
fn errors_tell_what_went_wrong() {
    assert_eq!(
        RecordStoreError::FailedToSwitchDB.message(),
        "Failed to switch database to a new file"
    );
    assert_eq!(RecordStoreError::DBFailed(s("disk full")).message(), "disk full");
    assert_eq!(
        RecordStoreError::NoDataOnDate(day(2020, 5, 6)).message(),
        "Given date is not registered in the database 2020-05-06"
    );
    assert_eq!(
        RecordStoreError::FailedToSwitchDB.description(),
        "Failed to switch database to a new file"
    );
    assert_eq!(RecordStoreError::DBFailed(s("disk full")).description(), "Internal DB error");
    assert_eq!(
        RecordStoreError::NoDataOnDate(day(2020, 5, 6)).description(),
        "Given date is not registered in the database"
    );
}

#[test]
fn partitions_are_copied_with_their_records() {
    let part = DayPartition { key: s("2020-05-06"), records: vec![record("a", 0, 1)] };
    let copy = part.clone();
    assert_eq!(copy.key, "2020-05-06");
    assert_eq!(copy.records, vec![record("a", 0, 1)]);
}

#[test]
fn local_day_follows_the_moment() {
    let noon = Date::local_on(Timestamp::from_secs(1_588_766_400)).unwrap();
    assert_eq!((noon.year(), noon.month()), (2020, 5));
    assert!(noon.day() == 5 || noon.day() == 6 || noon.day() == 7);
    let epoch = Date::local_on(Timestamp::from_secs(0)).unwrap();
    assert!(
        (epoch.year(), epoch.month(), epoch.day()) == (1970, 1, 1)
            || (epoch.year(), epoch.month(), epoch.day()) == (1969, 12, 31)
    );
    let a_day_later = Date::local_on(Timestamp::from_secs(1_588_766_400 + 3 * 86_400)).unwrap();
    assert!(a_day_later != noon);
    assert_eq!(Date::local_on(Timestamp::now()), Date::today());
}

#[test]
fn no_local_day_after_the_year_9999() {
    assert!(Date::local_on(Timestamp::from_secs(253_402_300_799)).is_some());
    assert_eq!(Date::local_on(Timestamp::from_secs(253_402_300_800)), None);
    assert_eq!(Date::local_on(Timestamp::from_secs(u64::MAX)), None);
    assert_eq!(Date::local_on(Timestamp { nanos: u128::MAX }), None);
}

#[test]
fn failure_without_a_day_is_a_backend_failure() {
    match RecordStoreError::no_day() {
        RecordStoreError::DBFailed(fault) => assert_eq!(fault, NO_DAY_FAULT),
        error => panic!("unexpected failure {:?}", error),
    }
    assert_eq!(RecordStoreError::no_day().message(), "the system clock gives no calendar day");
}

#[test]
fn loading_alone_adds_no_key() {
    let db = DB::load(Vec::new());
    assert_eq!(db.partitions().len(), 0);
    assert_eq!(db.get_available_dates(), Vec::new());
    let db = DB::load(vec![DayPartition { key: s("2020-05-05"), records: vec![record("x", 0, 1)] }]);
    assert_eq!(keys_of(db.partitions()), vec![s("2020-05-05")]);
    assert_eq!(db.read_records(&day(2020, 5, 5)).unwrap(), vec![record("x", 0, 1)]);
}

fn days_in(year: i32, month: u32) -> u32 {
    (28..=31).rev().find(|&last| Date::from_ymd(year, month, last).is_some()).unwrap()
}

#[test]
fn day_keys_of_four_digit_years_are_ten_characters_and_read_back() {
    let years = [0, 1, 4, 99, 100, 400, 999, 1000, 1582, 1900, 1969, 1970, 2000, 2020, 2024, 9999];
    for year in years {
        for month in 1..=12u32 {
            for d in 1..=days_in(year, month) {
                let date = day(year, month, d);
                let key = date.day_key();
                assert_eq!(key, format!("{:04}-{:02}-{:02}", year, month, d));
                assert_eq!(key.chars().count(), 10);
                assert_eq!(key.chars().nth(4), Some('-'));
                assert_eq!(key.chars().nth(7), Some('-'));
                assert_eq!(Date::from_day_key(&key), Some(date));
            }
        }
    }
}

#[test]
fn every_thirteenth_day_key_reads_back() {
    let mut checked = 0;
    for year in 0..=9999 {
        let month = (year as u32 * 7) % 12 + 1;
        let d = (year as u32 * 13) % days_in(year, month) + 1;
        let date = day(year, month, d);
        assert_eq!(Date::from_day_key(&date.day_key()), Some(date));
        checked += 1;
    }
    assert_eq!(checked, 10_000);
}

#[test]
fn day_keys_outside_four_digit_years_carry_a_sign() {
    assert_eq!(day(10_000, 1, 1).day_key(), "+10000-01-01");
    assert_eq!(day(-1, 12, 31).day_key(), "-0001-12-31");
    assert_eq!(Date::from_day_key("+10000-01-01"), Some(day(10_000, 1, 1)));
}

#[test]
fn appended_day_is_among_the_available_dates() {
    let today = day(2020, 5, 6);
    let mut store = RecordStore::new_on(Backend::InMemory, Vec::new(), &day(1999, 12, 31));
    store.push_record_on(&today, record("a", 0, 1));
    store.push_record_on(&today, record("b", 1, 2));
    let mut dates = store.query_dates();
    dates.sort_by_key(|date| (date.year(), date.month(), date.day()));
    assert_eq!(dates, vec![day(1999, 12, 31), today]);
}

#[test]
fn available_dates_come_once_for_each_key() {
    let loaded = vec![
        DayPartition { key: s("2020-05-06"), records: Vec::new() },
        DayPartition { key: s("2020-5-6"), records: Vec::new() },
        DayPartition { key: s("not a day"), records: Vec::new() },
        DayPartition { key: s("2020-05-07"), records: Vec::new() },
    ];
    let db = DB::load(loaded);
    let mut dates = db.get_available_dates();
    dates.sort_by_key(|date| (date.year(), date.month(), date.day()));
    assert_eq!(dates, vec![day(2020, 5, 6), day(2020, 5, 6), day(2020, 5, 7)]);
}

#[test]
fn calendar_is_that_of_chrono() {
    let years = [
        i32::MIN, -262_145, -262_144, -262_143, -262_142, -100_000, -401, -400, -100, -5, -4, -1,
        0, 1, 4, 100, 400, 1582, 1600, 1700, 1900, 1999, 2000, 2001, 2020, 2023, 2024, 2100, 9999,
        10_000, 262_141, 262_142, 262_143, 262_144, i32::MAX,
    ];
    for year in years {
        for month in 0..=14u32 {
            for d in 0..=33u32 {
                assert_eq!(
                    Date::from_ymd(year, month, d).is_some(),
                    chrono::NaiveDate::from_ymd_opt(year, month, d).is_some(),
                    "{} {} {}",
                    year,
                    month,
                    d
                );
            }
        }
    }
    assert!(Date::from_ymd(2020, u32::MAX, 1).is_none());
    assert!(Date::from_ymd(2020, 1, u32::MAX).is_none());
}

#[test]
fn every_year_has_the_february_of_chrono() {
    for year in -2000..=12_000 {
        let leap = chrono::NaiveDate::from_ymd_opt(year, 2, 29).is_some();
        assert_eq!(Date::leap_year(year), leap, "{}", year);
        assert_eq!(Date::from_ymd(year, 2, 29).is_some(), leap, "{}", year);
        assert!(Date::from_ymd(year, 2, 28).is_some());
        assert!(Date::from_ymd(year, 2, 30).is_none());
    }
    assert_eq!(Date::leap_year(i32::MIN), true);
    assert_eq!(Date::leap_year(i32::MAX), false);
    assert_eq!(Date::leap_year(-262_143), false);
}

#[test]
fn days_at_the_ends_of_the_calendar_have_keys() {
    assert_eq!(day(262_142, 12, 31).day_key(), "+262142-12-31");
    assert_eq!(day(-262_143, 1, 1).day_key(), "-262143-01-01");
    assert_eq!(Date::from_day_key("+262142-12-31"), Some(day(262_142, 12, 31)));
    assert_eq!(Date::from_day_key("-262143-01-01"), Some(day(-262_143, 1, 1)));
    assert_eq!(Date::from_day_key("+262143-01-01"), None);
}

#[test]
fn local_day_is_that_of_chrono() {
    let moments = [0i64, 86_399, 86_400, 951_782_400, 1_588_766_400, 4_102_444_800, 253_402_300_799];
    for secs in moments {
        let date = Date::local_on(Timestamp::from_secs(secs as u64)).unwrap();
        let local = chrono::DateTime::from_timestamp(secs, 0)
            .unwrap()
            .with_timezone(&chrono::Local)
            .date_naive();
        assert_eq!(format!("{}", local.format("%Y-%m-%d")), date.day_key());
        assert_eq!(Date::from_ymd(date.year(), date.month(), date.day()), Some(date));
    }
    let within_a_second = Date::local_on(Timestamp { nanos: 86_399_999_999_999 }).unwrap();
    assert_eq!(within_a_second, Date::local_on(Timestamp::from_secs(86_399)).unwrap());
}

#[test]
fn store_opens_appends_and_queries_by_the_reading() {
    let now = Timestamp::from_secs(1_588_766_400);
    let today = Date::local_on(now).unwrap();
    let mut store = RecordStore::new_at(Backend::FileBacked, Vec::new(), now);
    assert_eq!(store.query_records_by_date(&today).unwrap(), Vec::new());
    assert_eq!(store.push_record_at(now, record("a", 0, 10)).unwrap(), true);
    assert_eq!(store.push_record_at(now, record("b", 10, 12)).unwrap(), true);
    assert_eq!(store.query_records_at(now), vec![record("a", 0, 10), record("b", 10, 12)]);
    assert_eq!(
        store.query_records_by_date(&today).unwrap(),
        vec![record("a", 0, 10), record("b", 10, 12)]
    );
    let db = DB::new_at(Vec::new(), now);
    assert_eq!(keys_of(db.partitions()), vec![today.day_key()]);
}

#[test]
fn store_does_nothing_by_a_reading_after_the_year_9999() {
    let late = Timestamp::from_secs(253_402_300_800);
    let today = day(2020, 5, 6);
    let mut store = RecordStore::new_at(Backend::FileBacked, Vec::new(), late);
    assert_eq!(store.snapshot().len(), 0);
    store.push_record_on(&today, record("a", 0, 10));
    match store.push_record_at(late, record("b", 10, 12)) {
        Err(RecordStoreError::DBFailed(fault)) => assert_eq!(fault, NO_DAY_FAULT),
        pushed => panic!("unexpected answer {:?}", pushed),
    }
    assert_eq!(store.query_records_on(&today), vec![record("a", 0, 10)]);
    assert_eq!(store.query_records_at(late), Vec::new());
    assert_eq!(store.snapshot().len(), 1);
    let db = DB::new_at(Vec::new(), late);
    assert_eq!(db.partitions().len(), 0);
}

#[test]
fn reopened_store_holds_what_was_appended() {
    let today = day(2020, 5, 6);
    let later = day(2020, 5, 9);
    let mut store = RecordStore::new_on(Backend::FileBacked, Vec::new(), &today);
    store.push_record_on(&today, record("a", 0, 10));
    store.push_record_on(&today, record("b", 10, 15));
    let reopened = store.reopened_on(&later);
    assert_eq!(reopened.backend(), Backend::FileBacked);
    assert_eq!(
        reopened.query_records_by_date(&today).unwrap(),
        vec![record("a", 0, 10), record("b", 10, 15)]
    );
    assert_eq!(reopened.query_records_by_date(&later).unwrap(), Vec::new());
    assert_eq!(reopened.snapshot().len(), 2);
    assert_eq!(store.snapshot().len(), 1);
}

#[test]
fn container_is_kept_in_one_file() {
    assert_eq!(DB_FILE_NAME, "records.db");
}
