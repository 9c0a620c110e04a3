//! The classifier itself: activities in the order of the configuration, the
//! last one that matches decides.

use crate::classifier::activities::{
    configured_activity, ActivityInternal, ActivityInternalView,
};
use crate::classifier::config::{ActivityView, ClassifierConfig, ClassifierConfigView};
use crate::classifier::rules::rule_applies;
use crate::record_store::{
    Archetype, ArchetypeView, ProductivityStatus, ProductivityStatusView, Timestamp,
};
use vstd::prelude::*;
use vstd::std_specs::convert::FromSpecImpl;

verus! {

/// Seconds without input after which the user counts as away, where the
/// configuration gives none.
pub const DEFAULT_AFK_TIMEOUT_SECS: u64 = 75;

/// What can be classified: a value that shows an activity and takes a
/// verdict on it.
pub trait Classifiable {
    /// The activity that the value shows.
    spec fn archetype_view(&self) -> ArchetypeView;

    /// The verdict that the value holds.
    spec fn productivity_view(&self) -> ProductivityStatusView;

    /// The span of time that the value covers, if it covers one.
    spec fn time_range_view(&self) -> Option<(Timestamp, Timestamp)>;

    /// The activity that the value shows.
    fn get_archetype(&self) -> (archetype: &Archetype)
        ensures
            archetype@ == self.archetype_view(),
    ;

    /// Takes a verdict and leaves all else as it is.
    fn assign_productivity(&mut self, productivity: ProductivityStatus)
        ensures
            final(self).productivity_view() == productivity@,
            final(self).archetype_view() == old(self).archetype_view(),
            final(self).time_range_view() == old(self).time_range_view(),
    ;
}

/// Judges activities by the configured rules.
#[derive(Debug)]
pub struct Classifier {
    /// Seconds without input after which the user counts as away.
    pub afk_timeout_secs: u64,
    machine_name: String,
    activities: Vec<ActivityInternal>,
}

/// Mathematical model of a [`Classifier`].
pub struct ClassifierView {
    pub afk_timeout_secs: u64,
    pub machine_name: Seq<char>,
    pub activities: Seq<ActivityInternalView>,
}

impl View for Classifier {
    type V = ClassifierView;

    closed spec fn view(&self) -> ClassifierView {
        ClassifierView {
            afk_timeout_secs: self.afk_timeout_secs,
            machine_name: self.machine_name@,
            activities: self.activities.deep_view(),
        }
    }
}

/// The verdict that an activity gives to what it matches, by the sign of its
/// weight.
pub open spec fn verdict(activity: ActivityInternalView) -> ProductivityStatusView {
    if activity.productivity > 0 {
        ProductivityStatusView::Productive(activity.name)
    } else if activity.productivity < 0 {
        ProductivityStatusView::Leisure(activity.name)
    } else {
        ProductivityStatusView::Neutral
    }
}

/// An activity matches a window when one of its rules accepts it.
pub open spec fn activity_matches(
    activity: ActivityInternalView,
    title: Seq<char>,
    name: Seq<char>,
    class: Seq<char>,
) -> bool {
    exists|i: int|
        0 <= i < activity.rules.len() && rule_applies(
            #[trigger] activity.rules[i],
            name,
            class,
            title,
        )
}

/// The verdict on a window: that of the last activity that matches it,
/// neutral where none does.
pub open spec fn classify_window(
    activities: Seq<ActivityInternalView>,
    title: Seq<char>,
    name: Seq<char>,
    class: Seq<char>,
) -> ProductivityStatusView
    decreases activities.len(),
{
    if activities.len() == 0 {
        ProductivityStatusView::Neutral
    } else if activity_matches(activities.last(), title, name, class) {
        verdict(activities.last())
    } else {
        classify_window(activities.drop_last(), title, name, class)
    }
}

/// The verdict on an observed activity: being away is always neutral.
pub open spec fn classify_kind(
    activities: Seq<ActivityInternalView>,
    kind: ArchetypeView,
) -> ProductivityStatusView {
    match kind {
        ArchetypeView::AFK => ProductivityStatusView::Neutral,
        ArchetypeView::ActiveWindow(title, name, class) => classify_window(
            activities,
            title,
            name,
            class,
        ),
    }
}

/// The activities that a list of configured activities stands for, in order,
/// without those that stand for nothing.
pub open spec fn configured_activities(raws: Seq<ActivityView>) -> Seq<ActivityInternalView>
    decreases raws.len(),
{
    if raws.len() == 0 {
        Seq::empty()
    } else {
        match configured_activity(raws.last()) {
            Some(activity) => configured_activities(raws.drop_last()).push(activity),
            None => configured_activities(raws.drop_last()),
        }
    }
}

/// The classifier that a configuration stands for.
pub open spec fn configured_classifier(config: ClassifierConfigView) -> ClassifierView {
    ClassifierView {
        afk_timeout_secs: match config.afk_interval {
            Some(secs) => secs,
            None => DEFAULT_AFK_TIMEOUT_SECS,
        },
        machine_name: match config.name {
            Some(name) => name,
            None => "unnamed machine"@,
        },
        activities: match config.activity {
            Some(raws) => configured_activities(raws),
            None => Seq::empty(),
        },
    }
}

impl Default for Classifier {
    /// A classifier without activities, without a name for the machine, and
    /// with a timeout of zero seconds.
    fn default() -> (classifier: Self)
        ensures
            classifier@ == (ClassifierView {
                afk_timeout_secs: 0,
                machine_name: Seq::empty(),
                activities: Seq::empty(),
            }),
    {
        let classifier = Self {
            afk_timeout_secs: 0,
            machine_name: String::new(),
            activities: Vec::new(),
        };
        assert(classifier.activities.deep_view() =~= Seq::empty());
        classifier
    }
}

impl From<ClassifierConfig> for Classifier {
    fn from(config: ClassifierConfig) -> (classifier: Self)
        ensures
            classifier@ == configured_classifier(config@),
    {
        let activities = match config.activity {
            Some(conf_acts) => {
                let mut acts: Vec<ActivityInternal> = Vec::new();
                let ghost raws = conf_acts.deep_view();
                assert(raws.take(0) =~= Seq::empty());
                assert(acts.deep_view() =~= Seq::empty());
                for act in it: conf_acts
                    invariant
                        it.seq().len() == raws.len(),
                        forall|i: int| 0 <= i < raws.len() ==> it.seq()[i]@ == #[trigger] raws[i],
                        acts.deep_view() == configured_activities(raws.take(it.index() as int)),
                {
                    let ghost before = acts.deep_view();
                    let ghost done = it.index() as int;
                    assert(raws.take(done + 1).drop_last() =~= raws.take(done));
                    assert(raws.take(done + 1).last() == act@);
                    match Option::<ActivityInternal>::from(act) {
                        Some(internal_act) => {
                            acts.push(internal_act);
                            assert(acts.deep_view() =~= before.push(internal_act@));
                        },
                        None => {},
                    }
                }
                assert(raws.take(raws.len() as int) =~= raws);
                acts
            },
            None => {
                let acts: Vec<ActivityInternal> = Vec::new();
                assert(acts.deep_view() =~= Seq::empty());
                acts
            },
        };
        Self {
            afk_timeout_secs: match config.afk_interval {
                Some(secs) => secs,
                None => DEFAULT_AFK_TIMEOUT_SECS,
            },
            machine_name: match config.name {
                Some(name) => name,
                None => "unnamed machine".to_owned(),
            },
            activities,
        }
    }
}

/// What the conversion gives is stated by the `ensures` of `from`, over the
/// models of both sides; no spec function names the value itself.
impl FromSpecImpl<ClassifierConfig> for Classifier {
    open spec fn obeys_from_spec() -> bool {
        false
    }

    open spec fn from_spec(config: ClassifierConfig) -> Classifier {
        arbitrary()
    }
}

impl Classifier {
    /// Seconds without input after which the user counts as away.
    pub fn afk_timeout(&self) -> (secs: u64)
        ensures
            secs == self@.afk_timeout_secs,
    {
        self.afk_timeout_secs
    }

    /// The name of the machine that is tracked.
    pub fn machine_name(&self) -> (name: &String)
        ensures
            name@ == self@.machine_name,
    {
        &self.machine_name
    }

    /// Whether one of the activity's rules accepts the window.
    fn matches(
        activity: &ActivityInternal,
        title: &String,
        name: &String,
        class: &String,
    ) -> (r: bool)
        ensures
            r == activity_matches(activity@, title@, name@, class@),
    {
        let mut i: usize = 0;
        while i < activity.rules.len()
            invariant
                i <= activity.rules.len(),
                forall|j: int|
                    0 <= j < i ==> !rule_applies(
                        #[trigger] activity.rules.deep_view()[j],
                        name@,
                        class@,
                        title@,
                    ),
            decreases activity.rules.len() - i,
        {
            assert(activity.rules.deep_view()[i as int] == activity.rules@[i as int]@);
            if activity.rules[i].apply(name, class, title) {
                assert(rule_applies(activity@.rules[i as int], name@, class@, title@));
                return true;
            }
            i += 1;
        }
        false
    }

    /// The verdict on an observed activity.
    pub fn classify_archetype(&self, arch: &Archetype) -> (productivity: ProductivityStatus)
        ensures
            productivity@ == classify_kind(self@.activities, arch@),
    {
        match arch {
            Archetype::AFK => ProductivityStatus::Neutral,
            Archetype::ActiveWindow(title, name, class) => {
                let mut productivity = ProductivityStatus::Neutral;
                let ghost all = self.activities.deep_view();
                assert(all.take(0) =~= Seq::empty());
                let mut i: usize = 0;
                while i < self.activities.len()
                    invariant
                        i <= self.activities.len(),
                        all == self.activities.deep_view(),
                        productivity@ == classify_window(all.take(i as int), title@, name@, class@),
                    decreases self.activities.len() - i,
                {
                    let activity = &self.activities[i];
                    assert(all.take(i + 1).drop_last() =~= all.take(i as int));
                    assert(all.take(i + 1).last() == activity@);
                    if Self::matches(activity, title, name, class) {
                        productivity =
                        if activity.productivity > 0 {
                            ProductivityStatus::Productive(activity.name.clone())
                        } else if activity.productivity < 0 {
                            ProductivityStatus::Leisure(activity.name.clone())
                        } else {
                            ProductivityStatus::Neutral
                        };
                    }
                    i += 1;
                }
                assert(all.take(all.len() as int) =~= all);
                productivity
            },
        }
    }

    /// Judges what `record` shows and writes the verdict into it. What it
    /// shows and the span that it covers stay as they are.
    pub fn classify<T: Classifiable + ?Sized>(&self, record: &mut T)
        ensures
            final(record).productivity_view() == classify_kind(
                self@.activities,
                old(record).archetype_view(),
            ),
            final(record).archetype_view() == old(record).archetype_view(),
            final(record).time_range_view() == old(record).time_range_view(),
    {
        let productivity = self.classify_archetype(record.get_archetype());
        record.assign_productivity(productivity);
    }
}

/// Last match wins: where an activity matches a window and none after it
/// does, the verdict on the window is that activity's.
pub proof fn lemma_last_match_wins(
    activities: Seq<ActivityInternalView>,
    title: Seq<char>,
    name: Seq<char>,
    class: Seq<char>,
    last: int,
)
    requires
        0 <= last < activities.len(),
        activity_matches(activities[last], title, name, class),
        forall|k: int|
            last < k < activities.len() ==> !activity_matches(
                #[trigger] activities[k],
                title,
                name,
                class,
            ),
    ensures
        classify_window(activities, title, name, class) == verdict(activities[last]),
    decreases activities.len(),
{
    if last < activities.len() - 1 {
        let head = activities.drop_last();
        assert(head[last] == activities[last]);
        assert forall|k: int| last < k < head.len() implies !activity_matches(
            #[trigger] head[k],
            title,
            name,
            class,
        ) by {
            assert(head[k] == activities[k]);
        }
        assert(!activity_matches(activities[activities.len() - 1], title, name, class));
        lemma_last_match_wins(head, title, name, class, last);
    }
}

/// Where no activity matches a window, the verdict on it is neutral.
pub proof fn lemma_no_match_is_neutral(
    activities: Seq<ActivityInternalView>,
    title: Seq<char>,
    name: Seq<char>,
    class: Seq<char>,
)
    requires
        forall|k: int|
            0 <= k < activities.len() ==> !activity_matches(
                #[trigger] activities[k],
                title,
                name,
                class,
            ),
    ensures
        classify_window(activities, title, name, class) == ProductivityStatusView::Neutral,
    decreases activities.len(),
{
    if activities.len() > 0 {
        let head = activities.drop_last();
        assert forall|k: int| 0 <= k < head.len() implies !activity_matches(
            #[trigger] head[k],
            title,
            name,
            class,
        ) by {
            assert(head[k] == activities[k]);
        }
        assert(!activity_matches(activities[activities.len() - 1], title, name, class));
        lemma_no_match_is_neutral(head, title, name, class);
    }
}

/// Of two activities that both match a window, the one that is configured
/// second decides, whatever the weights.
pub proof fn lemma_second_of_two_decides(
    first: ActivityInternalView,
    second: ActivityInternalView,
    title: Seq<char>,
    name: Seq<char>,
    class: Seq<char>,
)
    requires
        activity_matches(first, title, name, class),
        activity_matches(second, title, name, class),
    ensures
        classify_window(seq![first, second], title, name, class) == verdict(second),
        classify_window(seq![second, first], title, name, class) == verdict(first),
{
    lemma_last_match_wins(seq![first, second], title, name, class, 1);
    lemma_last_match_wins(seq![second, first], title, name, class, 1);
}

} // verus!
