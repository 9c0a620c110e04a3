//! The idle timer of a session that follows windows by what the window
//! manager knows of them.

use crate::record_store::time::whole_secs_between;
use crate::record_store::Timestamp;
use crate::window::{same_window, WindowInfo, WindowInfoView};
use crate::window_manager::MouseState;
use vstd::prelude::*;

verus! {

/// The window in focus and the moment of the last sign of life.
#[derive(Debug)]
pub struct AppState {
    pub active_window_info: Option<WindowInfo>,
    last_moment_active: Timestamp,
    last_mouse_position: (i32, i32),
}

/// Mathematical model of an [`AppState`].
pub struct AppStateView {
    pub active_window_info: Option<WindowInfoView>,
    pub last_moment_active: Timestamp,
    pub last_mouse_position: (i32, i32),
}

impl View for AppState {
    type V = AppStateView;

    closed spec fn view(&self) -> AppStateView {
        AppStateView {
            active_window_info: match self.active_window_info {
                Some(info) => Some(info@),
                None => None,
            },
            last_moment_active: self.last_moment_active,
            last_mouse_position: self.last_mouse_position,
        }
    }
}

/// Whether a report of `info` means that the focus moved: there was no
/// window in focus, or the one in focus does not count as the same.
pub open spec fn focus_moved(state: AppStateView, info: WindowInfoView) -> bool {
    match state.active_window_info {
        Some(current) => !same_window(current, info),
        None => true,
    }
}

/// The state after `info` was reported at `now`: a focus that moved restarts
/// the idle timer and is remembered.
pub open spec fn after_window(
    state: AppStateView,
    info: WindowInfoView,
    now: Timestamp,
) -> AppStateView {
    if focus_moved(state, info) {
        AppStateView { active_window_info: Some(info), last_moment_active: now, ..state }
    } else {
        state
    }
}

/// The state after the pointer was seen at `now`: a pointer that moved or a
/// button that is held down restarts the idle timer.
pub open spec fn after_mouse(
    state: AppStateView,
    coords: (i32, i32),
    buttons: Seq<bool>,
    now: Timestamp,
) -> AppStateView {
    AppStateView {
        last_mouse_position: coords,
        last_moment_active: if coords != state.last_mouse_position || buttons.contains(true) {
            now
        } else {
            state.last_moment_active
        },
        ..state
    }
}

/// The state after keys were seen held down at `now`: any key restarts the
/// idle timer.
pub open spec fn after_keys(state: AppStateView, keys: Seq<u8>, now: Timestamp) -> AppStateView {
    AppStateView {
        last_moment_active: if keys.len() > 0 {
            now
        } else {
            state.last_moment_active
        },
        ..state
    }
}

impl AppState {
    /// A state without a window in focus whose idle timer starts at the
    /// current time.
    pub fn new() -> (state: Self)
        ensures
            state@.active_window_info is None,
            state@.last_mouse_position == (0i32, 0i32),
    {
        Self::new_at(Timestamp::now())
    }

    /// A state without a window in focus whose idle timer starts at `now`.
    pub fn new_at(now: Timestamp) -> (state: Self)
        ensures
            state@ == (AppStateView {
                active_window_info: None,
                last_moment_active: now,
                last_mouse_position: (0, 0),
            }),
    {
        Self { active_window_info: None, last_moment_active: now, last_mouse_position: (0, 0) }
    }

    /// Takes a report of the window in focus at the current time.
    pub fn updated_window_info(&mut self, info: &WindowInfo)
        ensures
            exists|now: Timestamp| final(self)@ == #[trigger] after_window(old(self)@, info@, now),
    {
        self.updated_window_info_at(info, Timestamp::now())
    }

    /// Takes a report of the window in focus at `now`.
    pub fn updated_window_info_at(&mut self, info: &WindowInfo, now: Timestamp)
        ensures
            final(self)@ == after_window(old(self)@, info@, now),
    {
        let moved = match &self.active_window_info {
            Some(current_info) => *current_info != *info,
            None => true,
        };
        if moved {
            self.timer_reset(now);
            self.active_window_info = Some(info.clone());
        }
    }

    /// Takes what was seen of the pointer at the current time.
    pub fn updated_mouse_info(&mut self, mouse_info: &MouseState)
        ensures
            exists|now: Timestamp| final(self)@ == #[trigger] after_mouse(
                old(self)@,
                mouse_info.coords,
                mouse_info.button_pressed@,
                now,
            ),
    {
        self.updated_mouse_info_at(mouse_info, Timestamp::now())
    }

    /// Takes what was seen of the pointer at `now`.
    pub fn updated_mouse_info_at(&mut self, mouse_info: &MouseState, now: Timestamp)
        ensures
            final(self)@ == after_mouse(
                old(self)@,
                mouse_info.coords,
                mouse_info.button_pressed@,
                now,
            ),
    {
        if self.last_mouse_position.0 != mouse_info.coords.0 || self.last_mouse_position.1
            != mouse_info.coords.1 {
            self.last_mouse_position = mouse_info.coords;
            self.timer_reset(now);
        }
        if mouse_info.any_button_pressed() {
            self.timer_reset(now)
        }
    }

    /// Takes the keys that are held down at the current time.
    pub fn updated_keys(&mut self, comb: Vec<u8>)
        ensures
            exists|now: Timestamp| final(self)@ == #[trigger] after_keys(old(self)@, comb@, now),
    {
        self.updated_keys_at(comb, Timestamp::now())
    }

    /// Takes the keys that are held down at `now`.
    pub fn updated_keys_at(&mut self, comb: Vec<u8>, now: Timestamp)
        ensures
            final(self)@ == after_keys(old(self)@, comb@, now),
    {
        if comb.len() > 0 {
            self.timer_reset(now);
        }
    }

    /// Whole seconds since the last sign of life, by the system clock.
    pub fn get_afk_seconds(&self) -> (secs: u64)
        ensures
            exists|now: Timestamp| secs == #[trigger] whole_secs_between(
                self@.last_moment_active,
                now,
            ),
    {
        self.get_afk_seconds_at(Timestamp::now())
    }

    /// Whole seconds from the last sign of life to `now`; zero if `now` is
    /// earlier.
    pub fn get_afk_seconds_at(&self, now: Timestamp) -> (secs: u64)
        ensures
            secs == whole_secs_between(self@.last_moment_active, now),
    {
        now.whole_secs_since(&self.last_moment_active)
    }

    fn timer_reset(&mut self, now: Timestamp)
        ensures
            final(self)@ == (AppStateView { last_moment_active: now, ..old(self)@ }),
    {
        self.last_moment_active = now;
    }
}

} // verus!
