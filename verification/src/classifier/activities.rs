//! Activities as the classifier uses them.

use crate::classifier::config::{Activity, ActivityView, RuleView as RawRuleView};
use crate::classifier::rules::{configured_rule, RuleInternal, RuleInternalView};
use vstd::prelude::*;
use vstd::std_specs::convert::FromSpecImpl;

verus! {

/// A named activity, its weight, and the rules that recognise it.
#[derive(Debug)]
pub struct ActivityInternal {
    pub name: String,
    pub productivity: i8,
    pub rules: Vec<RuleInternal>,
}

/// Mathematical model of an [`ActivityInternal`].
pub struct ActivityInternalView {
    pub name: Seq<char>,
    pub productivity: i8,
    pub rules: Seq<RuleInternalView>,
}

impl View for ActivityInternal {
    type V = ActivityInternalView;

    open spec fn view(&self) -> ActivityInternalView {
        ActivityInternalView {
            name: self.name@,
            productivity: self.productivity,
            rules: self.rules.deep_view(),
        }
    }
}

impl DeepView for ActivityInternal {
    type V = ActivityInternalView;

    open spec fn deep_view(&self) -> ActivityInternalView {
        self@
    }
}

impl Default for ActivityInternal {
    fn default() -> (activity: Self)
        ensures
            activity@ == (ActivityInternalView {
                name: Seq::empty(),
                productivity: 0,
                rules: Seq::empty(),
            }),
    {
        let activity = ActivityInternal { name: String::new(), productivity: 0, rules: Vec::new() };
        assert(activity@.rules =~= Seq::empty());
        activity
    }
}

/// The rules that a list of configured rules stands for, in order, without
/// those that stand for nothing.
pub open spec fn configured_rules(raws: Seq<RawRuleView>) -> Seq<RuleInternalView>
    decreases raws.len(),
{
    if raws.len() == 0 {
        Seq::empty()
    } else {
        match configured_rule(raws.last()) {
            Some(rule) => configured_rules(raws.drop_last()).push(rule),
            None => configured_rules(raws.drop_last()),
        }
    }
}

/// The activity that a configured activity stands for: nothing without a
/// name, weight zero where none is given, no rules where none are given.
pub open spec fn configured_activity(raw: ActivityView) -> Option<ActivityInternalView> {
    match raw.name {
        Some(name) => Some(
            ActivityInternalView {
                name,
                productivity: match raw.productivity {
                    Some(weight) => weight,
                    None => 0,
                },
                rules: match raw.rule {
                    Some(raws) => configured_rules(raws),
                    None => Seq::empty(),
                },
            },
        ),
        None => None,
    }
}

impl From<Activity> for Option<ActivityInternal> {
    fn from(act_conf: Activity) -> (activity: Option<ActivityInternal>)
        ensures
            activity.deep_view() == configured_activity(act_conf@),
    {
        let rules = match act_conf.rule {
            Some(raw_rules) => {
                let mut rules_vec: Vec<RuleInternal> = Vec::new();
                let ghost raws = raw_rules.deep_view();
                assert(raws.take(0) =~= Seq::empty());
                assert(rules_vec.deep_view() =~= Seq::empty());
                for raw_rule in it: raw_rules
                    invariant
                        it.seq().len() == raws.len(),
                        forall|i: int| 0 <= i < raws.len() ==> it.seq()[i]@ == #[trigger] raws[i],
                        rules_vec.deep_view() == configured_rules(raws.take(it.index() as int)),
                {
                    let ghost before = rules_vec.deep_view();
                    let ghost done = it.index() as int;
                    assert(raws.take(done + 1).drop_last() =~= raws.take(done));
                    assert(raws.take(done + 1).last() == raw_rule@);
                    match Option::<RuleInternal>::from(raw_rule) {
                        Some(rule) => {
                            rules_vec.push(rule);
                            assert(rules_vec.deep_view() =~= before.push(rule@));
                        },
                        None => {},
                    }
                }
                assert(raws.take(raws.len() as int) =~= raws);
                rules_vec
            },
            None => {
                let rules_vec: Vec<RuleInternal> = Vec::new();
                assert(rules_vec.deep_view() =~= Seq::empty());
                rules_vec
            },
        };
        match act_conf.name {
            Some(name) => Some(
                ActivityInternal {
                    name,
                    productivity: match act_conf.productivity {
                        Some(weight) => weight,
                        None => 0,
                    },
                    rules,
                },
            ),
            None => None,
        }
    }
}

/// What the conversion gives is stated by the `ensures` of `from`, over the
/// models of both sides; no spec function names the value itself.
impl FromSpecImpl<Activity> for Option<ActivityInternal> {
    open spec fn obeys_from_spec() -> bool {
        false
    }

    open spec fn from_spec(act_conf: Activity) -> Option<ActivityInternal> {
        None
    }
}

} // verus!
