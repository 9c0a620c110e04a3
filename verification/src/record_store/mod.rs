//! The record store, the tracker that feeds it, and the data that both
//! share with the classifier: what was observed, how it was judged, and the
//! record that ties both to a time range.

pub mod date;
pub mod db;
pub mod opening;
pub mod store;
pub mod time;
pub mod tracker;
pub mod utils;

pub use self::store::RecordStore;
pub use self::time::Timestamp;
pub use self::tracker::RecordTracker;
use crate::classifier::Classifiable;
use vstd::prelude::*;
use vstd::std_specs::cmp::PartialEqSpecImpl;
use vstd::std_specs::convert::FromSpecImpl;

verus! {

/// The sensed category of user activity.
#[derive(Debug)]
pub enum Archetype {
    /// Stores title, app name and app class in that order
    ActiveWindow(String, String, String),
    AFK,
}

/// Mathematical model of an [`Archetype`].
pub enum ArchetypeView {
    ActiveWindow(Seq<char>, Seq<char>, Seq<char>),
    AFK,
}

impl View for Archetype {
    type V = ArchetypeView;

    open spec fn view(&self) -> ArchetypeView {
        match self {
            Archetype::ActiveWindow(title, name, class) => ArchetypeView::ActiveWindow(
                title@,
                name@,
                class@,
            ),
            Archetype::AFK => ArchetypeView::AFK,
        }
    }
}

impl DeepView for Archetype {
    type V = ArchetypeView;

    open spec fn deep_view(&self) -> ArchetypeView {
        self@
    }
}

impl PartialEq for Archetype {
    fn eq(&self, other: &Self) -> (r: bool) {
        match self {
            Archetype::AFK => match other {
                Archetype::AFK => true,
                Archetype::ActiveWindow(_, _, _) => false,
            },
            Archetype::ActiveWindow(t1, n1, c1) => match other {
                Archetype::AFK => false,
                Archetype::ActiveWindow(t2, n2, c2) => *t1 == *t2 && *n1 == *n2 && *c1 == *c2,
            },
        }
    }
}

impl PartialEqSpecImpl for Archetype {
    open spec fn obeys_eq_spec() -> bool {
        true
    }

    open spec fn eq_spec(&self, other: &Self) -> bool {
        self@ == other@
    }
}

impl Eq for Archetype {}

impl Clone for Archetype {
    fn clone(&self) -> (r: Self)
        ensures
            r == *self,
    {
        match self {
            Archetype::AFK => Archetype::AFK,
            Archetype::ActiveWindow(title, name, class) => Archetype::ActiveWindow(
                title.clone(),
                name.clone(),
                class.clone(),
            ),
        }
    }
}

/// How a span of activity was judged, with the name of the activity that
/// decided it.
#[derive(Debug)]
pub enum ProductivityStatus {
    Leisure(String),
    Neutral,
    Productive(String),
}

/// Mathematical model of a [`ProductivityStatus`].
pub enum ProductivityStatusView {
    Leisure(Seq<char>),
    Neutral,
    Productive(Seq<char>),
}

impl View for ProductivityStatus {
    type V = ProductivityStatusView;

    open spec fn view(&self) -> ProductivityStatusView {
        match self {
            ProductivityStatus::Leisure(activity) => ProductivityStatusView::Leisure(activity@),
            ProductivityStatus::Neutral => ProductivityStatusView::Neutral,
            ProductivityStatus::Productive(activity) => ProductivityStatusView::Productive(
                activity@,
            ),
        }
    }
}

impl DeepView for ProductivityStatus {
    type V = ProductivityStatusView;

    open spec fn deep_view(&self) -> ProductivityStatusView {
        self@
    }
}

impl PartialEq for ProductivityStatus {
    fn eq(&self, other: &Self) -> (r: bool) {
        match self {
            ProductivityStatus::Leisure(a) => match other {
                ProductivityStatus::Leisure(b) => *a == *b,
                ProductivityStatus::Neutral => false,
                ProductivityStatus::Productive(_) => false,
            },
            ProductivityStatus::Neutral => match other {
                ProductivityStatus::Leisure(_) => false,
                ProductivityStatus::Neutral => true,
                ProductivityStatus::Productive(_) => false,
            },
            ProductivityStatus::Productive(a) => match other {
                ProductivityStatus::Leisure(_) => false,
                ProductivityStatus::Neutral => false,
                ProductivityStatus::Productive(b) => *a == *b,
            },
        }
    }
}

impl PartialEqSpecImpl for ProductivityStatus {
    open spec fn obeys_eq_spec() -> bool {
        true
    }

    open spec fn eq_spec(&self, other: &Self) -> bool {
        self@ == other@
    }
}

impl Eq for ProductivityStatus {}

impl Clone for ProductivityStatus {
    fn clone(&self) -> (r: Self)
        ensures
            r == *self,
    {
        match self {
            ProductivityStatus::Leisure(activity) => ProductivityStatus::Leisure(activity.clone()),
            ProductivityStatus::Neutral => ProductivityStatus::Neutral,
            ProductivityStatus::Productive(activity) => ProductivityStatus::Productive(
                activity.clone(),
            ),
        }
    }
}

/// The sign of a status: -1 for leisure, 0 for neutral, 1 for productive.
pub open spec fn status_score(status: ProductivityStatusView) -> int {
    match status {
        ProductivityStatusView::Leisure(_) => -1,
        ProductivityStatusView::Neutral => 0,
        ProductivityStatusView::Productive(_) => 1,
    }
}

impl ProductivityStatus {
    /// The sign of the status: -1 for leisure, 0 for neutral, 1 for
    /// productive.
    pub fn score(&self) -> (score: i8)
        ensures
            score == status_score(self@),
    {
        match self {
            ProductivityStatus::Neutral => 0,
            ProductivityStatus::Leisure(_) => -1,
            ProductivityStatus::Productive(_) => 1,
        }
    }
}

impl From<&ProductivityStatus> for i8 {
    /// The sign of the status.
    fn from(status: &ProductivityStatus) -> (score: i8) {
        status.score()
    }
}

impl FromSpecImpl<&ProductivityStatus> for i8 {
    open spec fn obeys_from_spec() -> bool {
        true
    }

    open spec fn from_spec(status: &ProductivityStatus) -> i8 {
        match status {
            ProductivityStatus::Leisure(_) => -1i8,
            ProductivityStatus::Neutral => 0i8,
            ProductivityStatus::Productive(_) => 1i8,
        }
    }
}

/// One closed span of activity.
#[derive(Debug)]
pub struct ActivityRecord {
    /// Start and end of the span.
    pub time_range: (Timestamp, Timestamp),
    pub productivity: ProductivityStatus,
    pub archetype: Archetype,
}

/// Mathematical model of an [`ActivityRecord`].
pub struct ActivityRecordView {
    pub time_range: (Timestamp, Timestamp),
    pub productivity: ProductivityStatusView,
    pub archetype: ArchetypeView,
}

impl View for ActivityRecord {
    type V = ActivityRecordView;

    open spec fn view(&self) -> ActivityRecordView {
        ActivityRecordView {
            time_range: self.time_range,
            productivity: self.productivity@,
            archetype: self.archetype@,
        }
    }
}

impl DeepView for ActivityRecord {
    type V = ActivityRecordView;

    open spec fn deep_view(&self) -> ActivityRecordView {
        self@
    }
}

impl ActivityRecordView {
    /// A record's span does not end before it starts.
    pub open spec fn well_formed(self) -> bool {
        self.time_range.0.nanos <= self.time_range.1.nanos
    }
}

impl PartialEq for ActivityRecord {
    fn eq(&self, other: &Self) -> (r: bool) {
        self.time_range.0 == other.time_range.0 && self.time_range.1 == other.time_range.1
            && self.productivity == other.productivity && self.archetype == other.archetype
    }
}

impl PartialEqSpecImpl for ActivityRecord {
    open spec fn obeys_eq_spec() -> bool {
        true
    }

    open spec fn eq_spec(&self, other: &Self) -> bool {
        self@ == other@
    }
}

impl Eq for ActivityRecord {}

impl Clone for ActivityRecord {
    fn clone(&self) -> (r: Self)
        ensures
            r == *self,
    {
        ActivityRecord {
            time_range: self.time_range,
            productivity: self.productivity.clone(),
            archetype: self.archetype.clone(),
        }
    }
}

impl ActivityRecord {
    /// Whole seconds that the span lasted.
    pub fn duration_secs(&self) -> (secs: u64)
        ensures
            secs == time::whole_secs_between(self.time_range.0, self.time_range.1),
    {
        self.time_range.1.whole_secs_since(&self.time_range.0)
    }
}

impl Classifiable for ActivityRecord {
    open spec fn archetype_view(&self) -> ArchetypeView {
        self.archetype@
    }

    open spec fn productivity_view(&self) -> ProductivityStatusView {
        self.productivity@
    }

    open spec fn time_range_view(&self) -> Option<(Timestamp, Timestamp)> {
        Some(self.time_range)
    }

    fn get_archetype(&self) -> (archetype: &Archetype) {
        &self.archetype
    }

    fn assign_productivity(&mut self, productivity: ProductivityStatus) {
        self.productivity = productivity;
    }
}

} // verus!
