//! The classifier's configuration as it is written by the user: every part
//! may be left out.

use vstd::prelude::*;

verus! {

/// One rule of an activity as configured. The first of `for_class`,
/// `for_name` and `for_title` that is present selects the field to compare.
#[derive(Debug, Eq, PartialEq)]
pub struct Rule {
    pub for_name: Option<Vec<String>>,
    pub for_class: Option<Vec<String>>,
    pub for_title: Option<Vec<String>>,
    pub title_contains_any: Option<Vec<String>>,
    pub title_contains_all: Option<Vec<String>>,
    pub title_is: Option<String>,
    pub title_starts_with: Option<String>,
    pub title_ends_with: Option<String>,
}

/// Mathematical model of a configured [`Rule`].
pub struct RuleView {
    pub for_name: Option<Seq<Seq<char>>>,
    pub for_class: Option<Seq<Seq<char>>>,
    pub for_title: Option<Seq<Seq<char>>>,
    pub title_contains_any: Option<Seq<Seq<char>>>,
    pub title_contains_all: Option<Seq<Seq<char>>>,
    pub title_is: Option<Seq<char>>,
    pub title_starts_with: Option<Seq<char>>,
    pub title_ends_with: Option<Seq<char>>,
}

impl View for Rule {
    type V = RuleView;

    open spec fn view(&self) -> RuleView {
        RuleView {
            for_name: self.for_name.deep_view(),
            for_class: self.for_class.deep_view(),
            for_title: self.for_title.deep_view(),
            title_contains_any: self.title_contains_any.deep_view(),
            title_contains_all: self.title_contains_all.deep_view(),
            title_is: self.title_is.deep_view(),
            title_starts_with: self.title_starts_with.deep_view(),
            title_ends_with: self.title_ends_with.deep_view(),
        }
    }
}

impl DeepView for Rule {
    type V = RuleView;

    open spec fn deep_view(&self) -> RuleView {
        self@
    }
}

/// One activity as configured.
#[derive(Debug, Eq, PartialEq)]
pub struct Activity {
    pub name: Option<String>,
    /// The weight of the activity: its sign decides how a match is judged.
    pub productivity: Option<i8>,
    pub rule: Option<Vec<Rule>>,
}

/// Mathematical model of a configured [`Activity`].
pub struct ActivityView {
    pub name: Option<Seq<char>>,
    pub productivity: Option<i8>,
    pub rule: Option<Seq<RuleView>>,
}

impl View for Activity {
    type V = ActivityView;

    open spec fn view(&self) -> ActivityView {
        ActivityView {
            name: self.name.deep_view(),
            productivity: self.productivity,
            rule: self.rule.deep_view(),
        }
    }
}

impl DeepView for Activity {
    type V = ActivityView;

    open spec fn deep_view(&self) -> ActivityView {
        self@
    }
}

/// The whole configuration of the classifier.
#[derive(Debug)]
pub struct ClassifierConfig {
    /// Name of the machine that is tracked.
    pub name: Option<String>,
    /// Seconds without input after which the user counts as away.
    pub afk_interval: Option<u64>,
    pub activity: Option<Vec<Activity>>,
}

/// Mathematical model of a [`ClassifierConfig`].
pub struct ClassifierConfigView {
    pub name: Option<Seq<char>>,
    pub afk_interval: Option<u64>,
    pub activity: Option<Seq<ActivityView>>,
}

impl View for ClassifierConfig {
    type V = ClassifierConfigView;

    open spec fn view(&self) -> ClassifierConfigView {
        ClassifierConfigView {
            name: self.name.deep_view(),
            afk_interval: self.afk_interval,
            activity: self.activity.deep_view(),
        }
    }
}

impl Default for ClassifierConfig {
    /// The configuration that is used where the user wrote none: nothing is
    /// set.
    fn default() -> (config: Self)
        ensures
            config@ == (ClassifierConfigView { name: None, afk_interval: None, activity: None }),
    {
        ClassifierConfig { name: None, afk_interval: None, activity: None }
    }
}

} // verus!
