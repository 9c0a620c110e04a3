//! What the terminal shows of the current activity.

use crate::classifier::classifier::classify_kind;
use crate::classifier::Classifiable;
use crate::record_store::{
    Archetype, ArchetypeView, ProductivityStatus, ProductivityStatusView, Timestamp,
};
use crate::state::{AppState, AppStateView};
use std::borrow::Cow;
use vstd::prelude::*;
use vstd::std_specs::cmp::PartialEqSpecImpl;
use vstd::std_specs::convert::FromSpecImpl;

verus! {

/// A text as borrowed content of a clone-on-write value.
pub fn cow(str: &str) -> (text: Cow<'_, str>)
    ensures
        text@ == str@,
{
    Cow::Borrowed(str)
}

/// An activity and the verdict on it, as they are shown.
#[derive(Debug)]
pub struct DisplayArchetype {
    pub archetype: Archetype,
    pub productivity: ProductivityStatus,
}

/// Mathematical model of a [`DisplayArchetype`].
pub struct DisplayArchetypeView {
    pub archetype: ArchetypeView,
    pub productivity: ProductivityStatusView,
}

impl View for DisplayArchetype {
    type V = DisplayArchetypeView;

    open spec fn view(&self) -> DisplayArchetypeView {
        DisplayArchetypeView { archetype: self.archetype@, productivity: self.productivity@ }
    }
}

impl DeepView for DisplayArchetype {
    type V = DisplayArchetypeView;

    open spec fn deep_view(&self) -> DisplayArchetypeView {
        self@
    }
}

impl PartialEq for DisplayArchetype {
    fn eq(&self, other: &Self) -> (r: bool) {
        self.archetype == other.archetype && self.productivity == other.productivity
    }
}

impl PartialEqSpecImpl for DisplayArchetype {
    open spec fn obeys_eq_spec() -> bool {
        true
    }

    open spec fn eq_spec(&self, other: &Self) -> bool {
        self@ == other@
    }
}

impl Eq for DisplayArchetype {}

impl Clone for DisplayArchetype {
    fn clone(&self) -> (r: Self)
        ensures
            r == *self,
    {
        DisplayArchetype {
            archetype: self.archetype.clone(),
            productivity: self.productivity.clone(),
        }
    }
}

impl Classifiable for DisplayArchetype {
    open spec fn archetype_view(&self) -> ArchetypeView {
        self.archetype@
    }

    open spec fn productivity_view(&self) -> ProductivityStatusView {
        self.productivity@
    }

    open spec fn time_range_view(&self) -> Option<(Timestamp, Timestamp)> {
        None
    }

    fn get_archetype(&self) -> (archetype: &Archetype) {
        &self.archetype
    }

    fn assign_productivity(&mut self, productivity: ProductivityStatus) {
        self.productivity = productivity;
    }
}

/// What is shown of a session: the activity that the tracker follows with
/// the classifier's verdict on it, nothing where nothing was observed.
pub open spec fn shown_of(state: AppStateView) -> Option<DisplayArchetypeView> {
    match state.tracker.current {
        Some(kind) => Some(
            DisplayArchetypeView {
                archetype: kind,
                productivity: classify_kind(state.classifier.activities, kind),
            },
        ),
        None => None,
    }
}

impl From<&AppState> for Option<DisplayArchetype> {
    fn from(app: &AppState) -> (shown: Option<DisplayArchetype>)
        ensures
            shown.deep_view() == shown_of(app@),
    {
        match app.get_current_archetype() {
            Some(arch) => {
                let mut display = DisplayArchetype {
                    archetype: arch.clone(),
                    productivity: ProductivityStatus::Neutral,
                };
                app.classifier().classify(&mut display);
                Some(display)
            },
            None => None,
        }
    }
}

/// What the conversion gives is stated by the `ensures` of `from`, over the
/// models of both sides; no spec function names the value itself.
impl FromSpecImpl<&AppState> for Option<DisplayArchetype> {
    open spec fn obeys_from_spec() -> bool {
        false
    }

    open spec fn from_spec(app: &AppState) -> Option<DisplayArchetype> {
        None
    }
}

} // verus!
