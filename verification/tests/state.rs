use rtrackr::classifier::config::{Activity, ClassifierConfig, Rule};
use rtrackr::classifier::Classifier;
use rtrackr::record_store::date::Date;
use rtrackr::record_store::store::Backend;
use rtrackr::record_store::utils::{RecordStoreError, NO_DAY_FAULT};
use rtrackr::record_store::{Archetype, ProductivityStatus, RecordStore, Timestamp};
use rtrackr::state::focus;
use rtrackr::state::ui;
use rtrackr::state::AppState;
use rtrackr::tui::route_main::{DataPoint, RouteMain};
use rtrackr::tui::{cow, ActiveWindowInfo, DisplayArchetype, Router, Routes};
use rtrackr::window::WindowInfo;
use rtrackr::window_manager::MouseState;

fn s(text: &str) -> String {
    String::from(text)
}

fn editor() -> Archetype {
    Archetype::ActiveWindow(s("draft.rs"), s("Code"), s("code-oss"))
}

fn browser() -> Archetype {
    Archetype::ActiveWindow(s("cats"), s("Navigator"), s("firefox"))
}

fn at(secs: u64) -> Timestamp {
    Timestamp::from_secs(secs)
}

fn today() -> Date {
    Date::from_ymd(2020, 5, 6).unwrap()
}

fn classifier() -> Classifier {
    let rule = |class: &str, any: Option<&str>| Rule {
        for_name: None,
        for_class: Some(vec![s(class)]),
        for_title: None,
        title_contains_any: any.map(|text| vec![s(text)]),
        title_contains_all: None,
        title_is: None,
        title_starts_with: None,
        title_ends_with: None,
    };
    Classifier::from(ClassifierConfig {
        name: None,
        afk_interval: Some(75),
        activity: Some(vec![
            Activity {
                name: Some(s("coding")),
                productivity: Some(1),
                rule: Some(vec![rule("code-oss", Some("draft"))]),
            },
            Activity {
                name: Some(s("surfing")),
                productivity: Some(-1),
                rule: Some(vec![rule("firefox", None)]),
            },
        ]),
    })
}

fn session(backend: Backend) -> AppState {
    let store = RecordStore::new_on(backend, Vec::new(), &today());
    AppState::new_at(store, classifier(), at(1000))
}

#[test]
fn session_starts_without_observation() {
    let state = session(Backend::InMemory);
    assert_eq!(state.get_current_archetype(), &None);
    assert_eq!(state.get_afk_seconds_at(at(1004)), 4);
    assert_eq!(state.classifier().afk_timeout(), 75);
    assert_eq!(state.store().backend(), Backend::InMemory);
    assert_eq!(state.tracker().get_segment_start(), at(1000));
    assert_eq!(state.router.active_route, Routes::Main);
    let store = RecordStore::new_on(Backend::InMemory, Vec::new(), &today());
    let state = AppState::new(store, classifier());
    assert_eq!(state.get_current_archetype(), &None);
    assert!(state.get_afk_seconds() < 60);
}

#[test]
fn changing_windows_are_recorded_and_classified() {
    let mut state = session(Backend::FileBacked);
    assert_eq!(state.update_window_info_on(Some(editor()), at(1000), &today()), false);
    assert_eq!(state.update_window_info_on(Some(editor()), at(1005), &today()), false);
    assert_eq!(state.update_window_info_on(Some(browser()), at(1010), &today()), true);
    assert_eq!(state.update_window_info_on(None, at(1012), &today()), true);
    let records = state.store().query_records_on(&today());
    assert_eq!(records.len(), 2);
    assert_eq!(records[0].archetype, editor());
    assert_eq!(records[0].time_range, (at(1000), at(1010)));
    assert_eq!(records[0].productivity, ProductivityStatus::Productive(s("coding")));
    assert_eq!(records[1].archetype, browser());
    assert_eq!(records[1].time_range, (at(1010), at(1012)));
    assert_eq!(records[1].productivity, ProductivityStatus::Leisure(s("surfing")));
    assert_eq!(state.get_current_archetype(), &None);
}

#[test]
fn idle_user_counts_as_away_after_the_timeout() {
    let mut state = session(Backend::InMemory);
    state.update_window_info_on(Some(editor()), at(1000), &today());
    state.update_window_info_on(Some(editor()), at(1075), &today());
    assert_eq!(state.get_current_archetype(), &Some(editor()));
    state.update_window_info_on(Some(editor()), at(1076), &today());
    assert_eq!(state.get_current_archetype(), &Some(Archetype::AFK));
    let records = state.store().query_records_on(&today());
    assert_eq!(records.len(), 1);
    assert_eq!(records[0].archetype, editor());
    assert_eq!(records[0].time_range, (at(1000), at(1076)));
    assert_eq!(records[0].productivity, ProductivityStatus::Productive(s("coding")));

    state.update_keys_at(vec![38], at(1081));
    state.update_window_info_on(Some(editor()), at(1081), &today());
    assert_eq!(state.get_current_archetype(), &Some(editor()));
    let records = state.store().query_records_on(&today());
    assert_eq!(records.len(), 2);
    assert_eq!(records[1].archetype, Archetype::AFK);
    assert_eq!(records[1].duration_secs(), 5);
    assert_eq!(records[1].productivity, ProductivityStatus::Neutral);
}

#[test]
fn changing_window_restarts_the_idle_timer() {
    let mut state = session(Backend::InMemory);
    state.update_window_info_on(Some(editor()), at(1000), &today());
    state.update_window_info_on(Some(browser()), at(1200), &today());
    assert_eq!(state.get_current_archetype(), &Some(browser()));
    assert_eq!(state.get_afk_seconds_at(at(1200)), 0);
    state.update_window_info_on(Some(browser()), at(1275), &today());
    assert_eq!(state.get_current_archetype(), &Some(browser()));
    state.update_window_info_on(Some(browser()), at(1276), &today());
    assert_eq!(state.get_current_archetype(), &Some(Archetype::AFK));
}

#[test]
fn input_restarts_the_idle_timer() {
    let mut state = session(Backend::InMemory);
    state.update_keys_at(Vec::new(), at(1010));
    assert_eq!(state.get_afk_seconds_at(at(1020)), 20);
    state.update_keys_at(vec![1], at(1010));
    assert_eq!(state.get_afk_seconds_at(at(1020)), 10);

    let still = MouseState { coords: (0, 0), button_pressed: vec![false; 6] };
    state.update_mouse_info_at(&still, at(1015));
    assert_eq!(state.get_afk_seconds_at(at(1020)), 10);
    let moved = MouseState { coords: (3, 0), button_pressed: vec![false; 6] };
    state.update_mouse_info_at(&moved, at(1016));
    assert_eq!(state.get_afk_seconds_at(at(1020)), 4);
    state.update_mouse_info_at(&moved, at(1017));
    assert_eq!(state.get_afk_seconds_at(at(1020)), 4);
    let clicked = MouseState { coords: (3, 0), button_pressed: vec![false, false, true] };
    state.update_mouse_info_at(&clicked, at(1018));
    assert_eq!(state.get_afk_seconds_at(at(1020)), 2);
    assert_eq!(state.get_afk_seconds_at(at(1000)), 0);
}

#[test]
fn session_follows_the_system_clock() {
    let store = RecordStore::new(Backend::FileBacked, Vec::new());
    let mut state = AppState::new(store, classifier());
    assert_eq!(state.update_window_info(Some(editor())).unwrap(), false);
    assert_eq!(state.update_window_info(Some(browser())).unwrap(), true);
    state.update_keys(vec![1]);
    state.update_mouse_info(&MouseState { coords: (1, 1), button_pressed: Vec::new() });
    let records = state.store().query_records();
    assert_eq!(records.len(), 1);
    assert_eq!(records[0].archetype, editor());
    assert_eq!(state.get_current_archetype(), &Some(browser()));
}

#[test]
fn session_starts_at_one_reading_of_the_clock() {
    let store = RecordStore::new_on(Backend::FileBacked, Vec::new(), &today());
    let state = AppState::new(store, classifier());
    let started = state.tracker().get_segment_start();
    assert_eq!(state.get_afk_seconds_at(started), 0);
    assert_eq!(state.get_afk_seconds_at(Timestamp { nanos: started.nanos + 2_000_000_000 }), 2);
    assert_eq!(state.router.active_route, Routes::Main);
    assert_eq!(state.store().backend(), Backend::FileBacked);
    let mut state = state;
    state.update_mouse_info_at(&MouseState { coords: (0, 0), button_pressed: Vec::new() }, at(5));
    assert_eq!(state.get_afk_seconds_at(started), 0);
}

#[test]
fn report_is_taken_where_a_day_comes_for_the_reading() {
    let mut state = session(Backend::FileBacked);
    assert_eq!(state.update_window_info_at(Some(editor()), at(1000)).unwrap(), false);
    assert_eq!(state.update_window_info_at(Some(browser()), at(1010)).unwrap(), true);
    assert_eq!(state.get_current_archetype(), &Some(browser()));
    let day = Date::local_on(at(1010)).unwrap();
    let records = state.store().query_records_on(&day);
    assert_eq!(records.len(), 1);
    assert_eq!(records[0].archetype, editor());
    assert_eq!(records[0].time_range, (at(1000), at(1010)));
    assert_eq!(state.store().query_records_at(at(1010)), records);
}

#[test]
fn report_is_not_taken_after_the_year_9999() {
    let mut state = session(Backend::FileBacked);
    state.update_window_info_on(Some(editor()), at(1000), &today());
    let late = at(253_402_300_800);
    match state.update_window_info_at(Some(browser()), late) {
        Err(RecordStoreError::DBFailed(fault)) => assert_eq!(fault, NO_DAY_FAULT),
        taken => panic!("unexpected answer {:?}", taken),
    }
    assert_eq!(state.get_current_archetype(), &Some(editor()));
    assert_eq!(state.tracker().get_segment_start(), at(1000));
    assert_eq!(state.store().query_records_on(&today()), Vec::new());
    assert_eq!(state.get_afk_seconds_at(at(1001)), 1);
}

#[test]
fn main_screen_follows_the_reading() {
    let mut state = session(Backend::InMemory);
    state.update_window_info_at(Some(editor()), at(1000)).unwrap();
    state.update_window_info_at(Some(browser()), at(1010)).unwrap();
    let mut screen = RouteMain::from_state_at(&state, at(1011));
    assert_eq!(screen.records().len(), 1);
    assert_eq!(screen.tracking_time(), 10_000_000_000);
    state.update_window_info_at(None, at(1012)).unwrap();
    screen.tick_at(&state, at(1012));
    assert_eq!(screen.records().len(), 2);
    assert_eq!(screen.tracking_time(), 12_000_000_000);
    let late = at(253_402_300_800);
    let none = RouteMain::from_state_at(&state, late);
    assert_eq!(none.records().len(), 0);
    assert_eq!(none.tracking_time(), 0);
    screen.tick_at(&state, late);
    assert_eq!(screen.records().len(), 0);
    assert_eq!(screen.tracking_time(), (253_402_300_800 - 1012) * 1_000_000_000);
}

#[test]
fn mouse_state_knows_pressed_buttons() {
    assert_eq!(MouseState { coords: (0, 0), button_pressed: Vec::new() }.any_button_pressed(), false);
    assert_eq!(
        MouseState { coords: (0, 0), button_pressed: vec![false, false] }.any_button_pressed(),
        false
    );
    assert_eq!(
        MouseState { coords: (0, 0), button_pressed: vec![false, true] }.any_button_pressed(),
        true
    );
}

#[test]
fn display_shows_the_current_activity_with_its_verdict() {
    let mut state = session(Backend::InMemory);
    assert_eq!(Option::<DisplayArchetype>::from(&state), None);
    state.update_window_info_on(Some(editor()), at(1000), &today());
    assert_eq!(
        Option::<DisplayArchetype>::from(&state),
        Some(DisplayArchetype {
            archetype: editor(),
            productivity: ProductivityStatus::Productive(s("coding")),
        })
    );
    let mut info = ActiveWindowInfo::from(&state);
    assert_eq!(info.display().as_ref().map(|shown| shown.archetype.clone()), Some(editor()));
    state.update_window_info_on(Some(browser()), at(1001), &today());
    info.tick(&state);
    assert_eq!(
        info.display(),
        &Some(DisplayArchetype {
            archetype: browser(),
            productivity: ProductivityStatus::Leisure(s("surfing")),
        })
    );
    assert_eq!(cow("Title: "), "Title: ");
}

#[test]
fn terminal_router_switches_screens() {
    let mut router = Router { active_route: Routes::Main };
    assert_eq!(router.get_active_route(), &Routes::Main);
    router.switch(Routes::Main);
    assert_eq!(router.get_active_route(), &Routes::Main);
}

#[test]
fn screen_stack_pushes_pops_and_switches() {
    let mut router = ui::Router::default();
    assert_eq!(router.active_routes.len(), 1);
    assert!(matches!(router.active_routes[0], ui::Routes::Main));
    router.switch(ui::Routes::RecordEditor);
    assert_eq!(router.active_routes.len(), 1);
    assert!(matches!(router.active_routes[0], ui::Routes::Main));
    router.push(ui::Routes::Error(s("oops")));
    assert_eq!(router.active_routes.len(), 2);
    router.switch(ui::Routes::RecordEditor);
    assert_eq!(router.active_routes.len(), 2);
    assert!(matches!(router.active_routes[0], ui::Routes::Main));
    assert!(matches!(router.active_routes[1], ui::Routes::RecordEditor));
    assert!(matches!(router.pop(), Some(ui::Routes::RecordEditor)));
    assert!(matches!(router.pop(), Some(ui::Routes::Main)));
    assert!(router.pop().is_none());
    assert_eq!(router.active_routes.len(), 0);
}

#[test]
fn window_info_is_built_part_by_part() {
    let info = WindowInfo::build(7);
    assert_eq!(info.uid, 7);
    assert_eq!(info.get_strings(), [s("None"), s("None"), s("None")]);
    let info = info.with_title("cats").with_app_name("Navigator");
    assert_eq!(info.get_strings(), [s("cats"), s("Navigator"), s("None")]);
    assert_eq!(Option::<Archetype>::from(info.clone()), None);
    let info = info.with_app_class("firefox");
    assert_eq!(info.get_strings(), [s("cats"), s("Navigator"), s("firefox")]);
    assert_eq!(Option::<Archetype>::from(info), Some(browser()));
}

#[test]
fn windows_are_compared_by_identifier_and_browsers_by_tab() {
    let term = |uid: u64, title: &str| {
        WindowInfo::build(uid).with_title(title).with_app_name("xterm").with_app_class("XTerm")
    };
    assert!(term(1, "a") == term(1, "b"));
    assert!(term(1, "a") != term(2, "a"));
    let tab = |uid: u64, title: &str, class: &str| {
        WindowInfo::build(uid).with_title(title).with_app_name("Navigator").with_app_class(class)
    };
    assert!(tab(1, "a", "firefox") == tab(1, "a", "firefox"));
    assert!(tab(1, "a", "firefox") != tab(1, "b", "firefox"));
    assert!(tab(1, "a", "Google-chrome") != tab(1, "b", "Google-chrome"));
    assert!(tab(1, "a", "Google-chrome") != tab(2, "a", "Google-chrome"));
    assert!(WindowInfo::build(1) != WindowInfo::build(1));
    assert!(WindowInfo::build(1) != term(1, "a"));
    assert!(term(1, "a") == WindowInfo::build(1));
}

#[test]
fn focus_that_moves_restarts_the_idle_timer() {
    let term = WindowInfo::build(1).with_app_class("XTerm");
    let other = WindowInfo::build(2).with_app_class("XTerm");
    let mut state = focus::AppState::new_at(at(100));
    assert!(state.active_window_info.is_none());
    state.updated_window_info_at(&term, at(110));
    assert_eq!(state.get_afk_seconds_at(at(120)), 10);
    assert_eq!(state.active_window_info.as_ref().map(|info| info.uid), Some(1));
    state.updated_window_info_at(&term, at(115));
    assert_eq!(state.get_afk_seconds_at(at(120)), 10);
    state.updated_window_info_at(&other, at(118));
    assert_eq!(state.get_afk_seconds_at(at(120)), 2);
    assert_eq!(state.active_window_info.as_ref().map(|info| info.uid), Some(2));
    state.updated_keys_at(vec![1], at(119));
    assert_eq!(state.get_afk_seconds_at(at(120)), 1);
    state.updated_keys_at(Vec::new(), at(120));
    assert_eq!(state.get_afk_seconds_at(at(120)), 1);
    state.updated_mouse_info_at(&MouseState { coords: (0, 1), button_pressed: Vec::new() }, at(120));
    assert_eq!(state.get_afk_seconds_at(at(120)), 0);
    let mut state = focus::AppState::new();
    state.updated_window_info(&term);
    state.updated_keys(vec![1]);
    state.updated_mouse_info(&MouseState { coords: (0, 0), button_pressed: vec![true] });
    assert!(state.get_afk_seconds() < 60);
}

#[test]
fn main_screen_counts_running_shares() {
    let mut state = session(Backend::InMemory);
    let observed = [
        (Some(editor()), 1000u64),
        (Some(browser()), 1010),
        (Some(Archetype::AFK), 1015),
        (Some(editor()), 1020),
        (None, 1050),
    ];
    for (kind, secs) in observed {
        state.update_window_info_on(kind, at(secs), &today());
    }
    let mut screen = RouteMain::from_state_on(&state, &today());
    assert_eq!(screen.records().len(), 4);
    assert_eq!(screen.records()[0].time_range, (at(1020), at(1050)));
    assert_eq!(screen.records()[3].time_range, (at(1000), at(1010)));
    assert_eq!(screen.tracking_time(), 50_000_000_000);
    assert_eq!(screen.dataset_prod_cache(), &vec![DataPoint { at: 0, part: 0, of: 1 }]);
    assert_eq!(screen.dataset_leisure_cache(), &vec![DataPoint { at: 0, part: 0, of: 1 }]);

    let first = screen.process_record(&screen.records()[0]);
    assert_eq!(first.duration, 30);
    assert_eq!(first.prod_avg, DataPoint { at: 30, part: 30, of: 30 });
    assert_eq!(first.leusure_avg, DataPoint { at: 30, part: 0, of: 30 });

    screen.before_render();
    assert_eq!(screen.processed_records(), 3);
    assert_eq!(screen.processed_time_cached(), 40);
    assert_eq!(
        screen.dataset_prod_cache(),
        &vec![
            DataPoint { at: 0, part: 0, of: 1 },
            DataPoint { at: 30, part: 30, of: 30 },
            DataPoint { at: 35, part: 30, of: 35 },
            DataPoint { at: 40, part: 30, of: 40 },
        ]
    );
    assert_eq!(
        screen.dataset_leisure_cache(),
        &vec![
            DataPoint { at: 0, part: 0, of: 1 },
            DataPoint { at: 30, part: 0, of: 30 },
            DataPoint { at: 35, part: 0, of: 35 },
            DataPoint { at: 40, part: 5, of: 40 },
        ]
    );
    screen.before_render();
    assert_eq!(screen.processed_records(), 3);
    assert_eq!(screen.dataset_prod_cache().len(), 4);
}

#[test]
fn main_screen_takes_over_new_records_on_a_tick() {
    let mut state = session(Backend::InMemory);
    state.update_window_info_on(Some(editor()), at(1000), &today());
    let mut screen = RouteMain::from_state_on(&state, &today());
    assert_eq!(screen.records().len(), 0);
    assert_eq!(screen.tracking_time(), 0);
    screen.tick_on(&state, at(1004), &today());
    assert_eq!(screen.tracking_time(), 4_000_000_000);
    screen.tick_on(&state, at(1005), &today());
    assert_eq!(screen.tracking_time(), 9_000_000_000);
    state.update_window_info_on(Some(browser()), at(1010), &today());
    screen.tick_on(&state, at(1012), &today());
    assert_eq!(screen.records().len(), 1);
    assert_eq!(screen.tracking_time(), 12_000_000_000);
    screen.before_render();
    assert_eq!(screen.processed_records(), 0);
    let mut screen = RouteMain::from_state(&state);
    screen.tick(&state);
    assert_eq!(screen.processed_time_cached(), 0);
}

#[test]
fn main_screen_over_given_records() {
    let mut state = session(Backend::InMemory);
    state.update_window_info_on(Some(editor()), at(1000), &today());
    state.update_window_info_on(Some(browser()), at(1010), &today());
    state.update_window_info_on(None, at(1013), &today());
    let records = state.store().query_records_on(&today());
    let screen = RouteMain::over(records.clone());
    assert_eq!(screen.records().len(), 2);
    assert_eq!(screen.records()[0].archetype, browser());
    assert_eq!(screen.tracking_time(), 13_000_000_000);
    let mut screen = RouteMain::over(Vec::new());
    assert_eq!(screen.tracking_time(), 0);
    screen.tick_over(records, 500);
    assert_eq!(screen.records().len(), 2);
    assert_eq!(screen.tracking_time(), 13_000_000_500);
    screen.tick_over(Vec::new(), 1);
    assert_eq!(screen.records().len(), 0);
    assert_eq!(screen.tracking_time(), 1);
}

#[test]
fn main_screen_takes_at_most_a_hundred_records_in_one_go() {
    let mut state = session(Backend::InMemory);
    for i in 0..251u64 {
        let shown = if i % 2 == 0 { editor() } else { browser() };
        state.update_window_info_on(Some(shown), at(1000 + i), &today());
    }
    let mut screen = RouteMain::from_state_on(&state, &today());
    assert_eq!(screen.records().len(), 250);
    screen.before_render();
    assert_eq!(screen.processed_records(), 100);
    assert_eq!(screen.processed_time_cached(), 100);
    assert_eq!(screen.dataset_prod_cache().len(), 101);
    assert_eq!(screen.dataset_prod_cache()[100], DataPoint { at: 100, part: 50, of: 100 });
    assert_eq!(screen.dataset_leisure_cache()[100], DataPoint { at: 100, part: 50, of: 100 });
    screen.before_render();
    assert_eq!(screen.processed_records(), 200);
    screen.before_render();
    assert_eq!(screen.processed_records(), 249);
    assert_eq!(screen.processed_time_cached(), 249);
    screen.before_render();
    assert_eq!(screen.processed_records(), 249);
}
