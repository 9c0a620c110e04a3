//! What the parts of the screen keep between two ticks.

use crate::state::AppState;
use crate::tui::utils::{shown_of, DisplayArchetype, DisplayArchetypeView};
use vstd::prelude::*;
use vstd::std_specs::convert::FromSpecImpl;

verus! {

/// The part of the screen that tells of the window in focus.
#[derive(Debug)]
pub struct ActiveWindowInfo {
    display: Option<DisplayArchetype>,
}

impl View for ActiveWindowInfo {
    type V = Option<DisplayArchetypeView>;

    closed spec fn view(&self) -> Option<DisplayArchetypeView> {
        self.display.deep_view()
    }
}

impl From<&AppState> for ActiveWindowInfo {
    fn from(state: &AppState) -> (info: Self)
        ensures
            info@ == shown_of(state@),
    {
        Self { display: Option::<DisplayArchetype>::from(state) }
    }
}

/// What the conversion gives is stated by the `ensures` of `from`, over the
/// models of both sides; no spec function names the value itself.
impl FromSpecImpl<&AppState> for ActiveWindowInfo {
    open spec fn obeys_from_spec() -> bool {
        false
    }

    open spec fn from_spec(state: &AppState) -> ActiveWindowInfo {
        arbitrary()
    }
}

impl ActiveWindowInfo {
    /// Takes over what the session shows now.
    pub fn tick(&mut self, app_state: &AppState)
        ensures
            final(self)@ == shown_of(app_state@),
    {
        self.display = Option::<DisplayArchetype>::from(app_state);
    }

    /// What is to be drawn.
    pub fn display(&self) -> (display: &Option<DisplayArchetype>)
        ensures
            display.deep_view() == self@,
    {
        &self.display
    }
}

} // verus!
