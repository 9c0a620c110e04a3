//! Rules that decide whether a window belongs to an activity.

use crate::classifier::config::{Rule as RawRule, RuleView as RawRuleView};
use crate::classifier::text::{
    chars_of, contains, ends_with, is_substring, occurs_at, starts_with,
};
use vstd::prelude::*;
use vstd::std_specs::convert::FromSpecImpl;

verus! {

/// A predicate on a window's title.
#[derive(Debug)]
pub enum Filter {
    TitleContainsAll(Vec<String>),
    TitleContainsAny(Vec<String>),
    TitleIs(String),
    TitleStartsWith(String),
    TitleEndsWith(String),
}

/// Mathematical model of a [`Filter`].
pub enum FilterView {
    TitleContainsAll(Seq<Seq<char>>),
    TitleContainsAny(Seq<Seq<char>>),
    TitleIs(Seq<char>),
    TitleStartsWith(Seq<char>),
    TitleEndsWith(Seq<char>),
}

impl View for Filter {
    type V = FilterView;

    open spec fn view(&self) -> FilterView {
        match self {
            Filter::TitleContainsAll(parts) => FilterView::TitleContainsAll(parts.deep_view()),
            Filter::TitleContainsAny(parts) => FilterView::TitleContainsAny(parts.deep_view()),
            Filter::TitleIs(text) => FilterView::TitleIs(text@),
            Filter::TitleStartsWith(text) => FilterView::TitleStartsWith(text@),
            Filter::TitleEndsWith(text) => FilterView::TitleEndsWith(text@),
        }
    }
}

impl DeepView for Filter {
    type V = FilterView;

    open spec fn deep_view(&self) -> FilterView {
        self@
    }
}

/// What a filter demands of a title.
pub open spec fn filter_holds(filter: FilterView, title: Seq<char>) -> bool {
    match filter {
        FilterView::TitleContainsAll(parts) => has_all(parts, title),
        FilterView::TitleContainsAny(parts) => has_any(parts, title),
        FilterView::TitleIs(text) => title == text,
        FilterView::TitleStartsWith(text) => text.is_prefix_of(title),
        FilterView::TitleEndsWith(text) => text.is_suffix_of(title),
    }
}

/// A title passes a list of filters when the list is empty or at least one
/// filter holds.
pub open spec fn title_passes(filters: Seq<FilterView>, title: Seq<char>) -> bool {
    filters.len() == 0 || exists|i: int|
        0 <= i < filters.len() && filter_holds(#[trigger] filters[i], title)
}

/// Every text of `parts` occurs in `title`.
pub open spec fn has_all(parts: Seq<Seq<char>>, title: Seq<char>) -> bool {
    forall|i: int| 0 <= i < parts.len() ==> is_substring(#[trigger] parts[i], title)
}

/// Some text of `parts` occurs in `title`.
pub open spec fn has_any(parts: Seq<Seq<char>>, title: Seq<char>) -> bool {
    exists|i: int| 0 <= i < parts.len() && is_substring(#[trigger] parts[i], title)
}

/// What the filters mean in terms of how a title is put together: a title
/// contains a text when it is that text between some front and some back, it
/// starts with a text when it is that text and some rest, and it ends with a
/// text when it is some front and that text. A title contains all of two
/// texts exactly when it contains the one and the other.
pub proof fn lemma_filter_semantics(text: Seq<char>, other: Seq<char>, title: Seq<char>)
    ensures
        is_substring(text, title) <==> exists|front: Seq<char>, back: Seq<char>|
            title == #[trigger] (front + text + back),
        filter_holds(FilterView::TitleStartsWith(text), title) <==> exists|rest: Seq<char>|
            title == #[trigger] (text + rest),
        filter_holds(FilterView::TitleEndsWith(text), title) <==> exists|front: Seq<char>|
            title == #[trigger] (front + text),
        filter_holds(FilterView::TitleContainsAll(seq![text, other]), title) <==> is_substring(
            text,
            title,
        ) && is_substring(other, title),
        filter_holds(FilterView::TitleContainsAny(seq![text, other]), title) <==> is_substring(
            text,
            title,
        ) || is_substring(other, title),
        filter_holds(FilterView::TitleIs(text), title) <==> title == text,
{
    let n = text.len() as int;
    let m = title.len() as int;
    if is_substring(text, title) {
        let at = choose|at: int| occurs_at(text, title, at);
        let front = title.subrange(0, at);
        let back = title.subrange(at + n, m);
        assert(title =~= front + text + back);
    }
    if exists|front: Seq<char>, back: Seq<char>| title == #[trigger] (front + text + back) {
        let (front, back) = choose|front: Seq<char>, back: Seq<char>|
            title == #[trigger] (front + text + back);
        assert(title.subrange(front.len() as int, front.len() + n) =~= text);
        assert(occurs_at(text, title, front.len() as int));
    }
    if text.is_prefix_of(title) {
        assert(title =~= text + title.subrange(n, m));
    }
    if exists|rest: Seq<char>| title == #[trigger] (text + rest) {
        let rest = choose|rest: Seq<char>| title == #[trigger] (text + rest);
        assert(title.subrange(0, n) =~= text);
    }
    if text.is_suffix_of(title) {
        assert(title =~= title.subrange(0, m - n) + text);
    }
    if exists|front: Seq<char>| title == #[trigger] (front + text) {
        let front = choose|front: Seq<char>| title == #[trigger] (front + text);
        assert(title.subrange(m - n, m) =~= text);
    }
    let both = seq![text, other];
    assert(both[0] == text && both[1] == other);
    if is_substring(text, title) && is_substring(other, title) {
        assert forall|i: int| 0 <= i < both.len() implies is_substring(
            #[trigger] both[i],
            title,
        ) by {}
    }
}

fn contains_all(title: &Vec<char>, parts: &Vec<String>) -> (r: bool)
    ensures
        r == has_all(parts.deep_view(), title@),
{
    let mut i: usize = 0;
    while i < parts.len()
        invariant
            i <= parts.len(),
            forall|j: int| 0 <= j < i ==> is_substring(#[trigger] parts.deep_view()[j], title@),
        decreases parts.len() - i,
    {
        let part = chars_of(parts[i].as_str());
        assert(parts.deep_view()[i as int] == part@);
        if !contains(title, &part) {
            return false;
        }
        i += 1;
    }
    true
}

fn contains_any(title: &Vec<char>, parts: &Vec<String>) -> (r: bool)
    ensures
        r == has_any(parts.deep_view(), title@),
{
    let mut i: usize = 0;
    while i < parts.len()
        invariant
            i <= parts.len(),
            forall|j: int| 0 <= j < i ==> !is_substring(#[trigger] parts.deep_view()[j], title@),
        decreases parts.len() - i,
    {
        let part = chars_of(parts[i].as_str());
        assert(parts.deep_view()[i as int] == part@);
        if contains(title, &part) {
            return true;
        }
        i += 1;
    }
    false
}

impl Filter {
    /// Evaluates the filter on a title given as characters.
    pub fn holds(&self, title: &Vec<char>) -> (r: bool)
        ensures
            r == filter_holds(self@, title@),
    {
        match self {
            Filter::TitleContainsAll(parts) => contains_all(title, parts),
            Filter::TitleContainsAny(parts) => contains_any(title, parts),
            Filter::TitleIs(text) => {
                let wanted = chars_of(text.as_str());
                assert(title@.subrange(0, title@.len() as int) =~= title@);
                wanted.len() == title.len() && starts_with(title, &wanted)
            },
            Filter::TitleStartsWith(text) => {
                let wanted = chars_of(text.as_str());
                starts_with(title, &wanted)
            },
            Filter::TitleEndsWith(text) => {
                let wanted = chars_of(text.as_str());
                ends_with(title, &wanted)
            },
        }
    }
}

/// A predicate on a window: which field is compared, the values it may
/// have, and the title filters that narrow the match.
#[derive(Debug)]
pub enum RuleInternal {
    ForName(Vec<String>, Vec<Filter>),
    ForClass(Vec<String>, Vec<Filter>),
    ForTitle(Vec<String>, Vec<Filter>),
}

/// Mathematical model of a [`RuleInternal`].
pub enum RuleInternalView {
    ForName(Seq<Seq<char>>, Seq<FilterView>),
    ForClass(Seq<Seq<char>>, Seq<FilterView>),
    ForTitle(Seq<Seq<char>>, Seq<FilterView>),
}

impl View for RuleInternal {
    type V = RuleInternalView;

    open spec fn view(&self) -> RuleInternalView {
        match self {
            RuleInternal::ForName(values, filters) => RuleInternalView::ForName(
                values.deep_view(),
                filters.deep_view(),
            ),
            RuleInternal::ForClass(values, filters) => RuleInternalView::ForClass(
                values.deep_view(),
                filters.deep_view(),
            ),
            RuleInternal::ForTitle(values, filters) => RuleInternalView::ForTitle(
                values.deep_view(),
                filters.deep_view(),
            ),
        }
    }
}

impl DeepView for RuleInternal {
    type V = RuleInternalView;

    open spec fn deep_view(&self) -> RuleInternalView {
        self@
    }
}

impl Default for RuleInternal {
    fn default() -> (r: Self)
        ensures
            r@ == RuleInternalView::ForName(Seq::empty(), Seq::empty()),
    {
        let r = RuleInternal::ForName(Vec::new(), Vec::new());
        assert(r@->ForName_0 =~= Seq::empty());
        assert(r@->ForName_1 =~= Seq::empty());
        r
    }
}

/// Whether a rule accepts the window with the given name, class and title.
///
/// A title rule is decided by its values alone. A name or class rule also
/// asks the title to pass the rule's filters.
pub open spec fn rule_applies(
    rule: RuleInternalView,
    name: Seq<char>,
    class: Seq<char>,
    title: Seq<char>,
) -> bool {
    match rule {
        RuleInternalView::ForName(values, filters) => values.contains(name) && title_passes(
            filters,
            title,
        ),
        RuleInternalView::ForClass(values, filters) => values.contains(class) && title_passes(
            filters,
            title,
        ),
        RuleInternalView::ForTitle(values, _) => values.contains(title),
    }
}

fn lists(values: &Vec<String>, text: &String) -> (r: bool)
    ensures
        r == values.deep_view().contains(text@),
{
    let mut i: usize = 0;
    while i < values.len()
        invariant
            i <= values.len(),
            forall|j: int| 0 <= j < i ==> values.deep_view()[j] != text@,
        decreases values.len() - i,
    {
        if values[i] == *text {
            assert(values.deep_view()[i as int] == text@);
            return true;
        }
        i += 1;
    }
    false
}

impl RuleInternal {
    /// Applies the rule to a window's name, class and title.
    pub fn apply(&self, r_name: &String, r_class: &String, r_title: &String) -> (r: bool)
        ensures
            r == rule_applies(self@, r_name@, r_class@, r_title@),
    {
        match self {
            RuleInternal::ForClass(classes, filters) => if lists(classes, r_class) {
                Self::check_title(r_title, filters)
            } else {
                false
            },
            RuleInternal::ForName(names, filters) => if lists(names, r_name) {
                Self::check_title(r_title, filters)
            } else {
                false
            },
            RuleInternal::ForTitle(titles, _) => lists(titles, r_title),
        }
    }

    /// Whether a title passes a list of filters: an empty list lets every
    /// title pass, otherwise one filter that holds is enough.
    pub fn check_title(title: &String, filters: &Vec<Filter>) -> (result: bool)
        ensures
            result == title_passes(filters.deep_view(), title@),
    {
        if filters.len() == 0 {
            return true;
        }
        let chars = chars_of(title.as_str());
        let mut i: usize = 0;
        while i < filters.len()
            invariant
                i <= filters.len(),
                chars@ == title@,
                forall|j: int|
                    0 <= j < i ==> !filter_holds(#[trigger] filters.deep_view()[j], title@),
            decreases filters.len() - i,
        {
            assert(filters.deep_view()[i as int] == filters@[i as int]@);
            if filters[i].holds(&chars) {
                return true;
            }
            i += 1;
        }
        false
    }
}

/// The filter that a configured part stands for, if the part is present.
pub open spec fn optional_filter(part: Option<FilterView>) -> Seq<FilterView> {
    match part {
        Some(filter) => seq![filter],
        None => Seq::empty(),
    }
}

/// The title filters of a configured rule, in the order in which they are
/// tried: contains all, contains any, is, starts with, ends with.
pub open spec fn configured_filters(raw: RawRuleView) -> Seq<FilterView> {
    optional_filter(
        match raw.title_contains_all {
            Some(parts) => Some(FilterView::TitleContainsAll(parts)),
            None => None,
        },
    ) + optional_filter(
        match raw.title_contains_any {
            Some(parts) => Some(FilterView::TitleContainsAny(parts)),
            None => None,
        },
    ) + optional_filter(
        match raw.title_is {
            Some(text) => Some(FilterView::TitleIs(text)),
            None => None,
        },
    ) + optional_filter(
        match raw.title_starts_with {
            Some(text) => Some(FilterView::TitleStartsWith(text)),
            None => None,
        },
    ) + optional_filter(
        match raw.title_ends_with {
            Some(text) => Some(FilterView::TitleEndsWith(text)),
            None => None,
        },
    )
}

/// The rule that a configured rule stands for. The class is preferred to the
/// name and the name to the title; a rule that names none of them stands for
/// nothing.
pub open spec fn configured_rule(raw: RawRuleView) -> Option<RuleInternalView> {
    match raw.for_class {
        Some(classes) => Some(RuleInternalView::ForClass(classes, configured_filters(raw))),
        None => match raw.for_name {
            Some(names) => Some(RuleInternalView::ForName(names, configured_filters(raw))),
            None => match raw.for_title {
                Some(titles) => Some(RuleInternalView::ForTitle(titles, configured_filters(raw))),
                None => None,
            },
        },
    }
}

impl From<RawRule> for Option<RuleInternal> {
    fn from(raw: RawRule) -> (rule: Option<RuleInternal>)
        ensures
            rule.deep_view() == configured_rule(raw@),
    {
        let mut filters: Vec<Filter> = Vec::new();
        let ghost wanted = configured_filters(raw@);
        assert(filters.deep_view() =~= Seq::<FilterView>::empty());
        match raw.title_contains_all {
            Some(parts) => {
                filters.push(Filter::TitleContainsAll(parts));
            },
            None => {},
        }
        assert(filters.deep_view() =~= optional_filter(
            match raw@.title_contains_all {
                Some(parts) => Some(FilterView::TitleContainsAll(parts)),
                None => None,
            },
        ));
        let ghost so_far = filters.deep_view();
        match raw.title_contains_any {
            Some(parts) => {
                filters.push(Filter::TitleContainsAny(parts));
            },
            None => {},
        }
        assert(filters.deep_view() =~= so_far + optional_filter(
            match raw@.title_contains_any {
                Some(parts) => Some(FilterView::TitleContainsAny(parts)),
                None => None,
            },
        ));
        let ghost so_far = filters.deep_view();
        match raw.title_is {
            Some(text) => {
                filters.push(Filter::TitleIs(text));
            },
            None => {},
        }
        assert(filters.deep_view() =~= so_far + optional_filter(
            match raw@.title_is {
                Some(text) => Some(FilterView::TitleIs(text)),
                None => None,
            },
        ));
        let ghost so_far = filters.deep_view();
        match raw.title_starts_with {
            Some(text) => {
                filters.push(Filter::TitleStartsWith(text));
            },
            None => {},
        }
        assert(filters.deep_view() =~= so_far + optional_filter(
            match raw@.title_starts_with {
                Some(text) => Some(FilterView::TitleStartsWith(text)),
                None => None,
            },
        ));
        let ghost so_far = filters.deep_view();
        match raw.title_ends_with {
            Some(text) => {
                filters.push(Filter::TitleEndsWith(text));
            },
            None => {},
        }
        assert(filters.deep_view() =~= so_far + optional_filter(
            match raw@.title_ends_with {
                Some(text) => Some(FilterView::TitleEndsWith(text)),
                None => None,
            },
        ));
        assert(filters.deep_view() == wanted);
        match raw.for_class {
            Some(classes) => Some(RuleInternal::ForClass(classes, filters)),
            None => match raw.for_name {
                Some(names) => Some(RuleInternal::ForName(names, filters)),
                None => match raw.for_title {
                    Some(titles) => Some(RuleInternal::ForTitle(titles, filters)),
                    None => None,
                },
            },
        }
    }
}

/// What the conversion gives is stated by the `ensures` of `from`, over the
/// models of both sides; no spec function names the value itself.
impl FromSpecImpl<RawRule> for Option<RuleInternal> {
    open spec fn obeys_from_spec() -> bool {
        false
    }

    open spec fn from_spec(raw: RawRule) -> Option<RuleInternal> {
        None
    }
}

} // verus!
