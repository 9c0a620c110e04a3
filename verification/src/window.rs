//! What a window manager tells of a window.

use crate::record_store::{Archetype, ArchetypeView};
use vstd::prelude::*;
use vstd::std_specs::cmp::PartialEqSpecImpl;
use vstd::std_specs::convert::FromSpecImpl;

verus! {

/// A window as the window manager reports it: its identifier and, as far as
/// they are known, its title and the name and class of its application.
#[derive(Debug)]
pub struct WindowInfo {
    pub uid: u64,
    pub title: Option<String>,
    pub app_name: Option<String>,
    pub app_class: Option<String>,
}

/// Mathematical model of a [`WindowInfo`].
pub struct WindowInfoView {
    pub uid: u64,
    pub title: Option<Seq<char>>,
    pub app_name: Option<Seq<char>>,
    pub app_class: Option<Seq<char>>,
}

impl View for WindowInfo {
    type V = WindowInfoView;

    open spec fn view(&self) -> WindowInfoView {
        WindowInfoView {
            uid: self.uid,
            title: self.title.deep_view(),
            app_name: self.app_name.deep_view(),
            app_class: self.app_class.deep_view(),
        }
    }
}

/// The class of the windows of Google Chrome.
pub const WM_CLASS_GOOGLE_CHROME: &'static str = "Google-chrome";

/// The class of the windows of Firefox.
pub const WM_CLASS_FIREFOX: &'static str = "firefox";

/// What stands for a part that is not known.
pub const UNKNOWN_TEXT: &'static str = "None";

/// Whether windows of this class show tabs, so that one window stands for
/// many pages.
pub open spec fn is_browser_class(class: Seq<char>) -> bool {
    class == WM_CLASS_FIREFOX@ || class == WM_CLASS_GOOGLE_CHROME@
}

/// Whether `this` counts as the same window as `other`. A window without a
/// class equals nothing. A browser window is the same only while everything
/// that is known of it stays the same; any other window is known by its
/// identifier.
pub open spec fn same_window(this: WindowInfoView, other: WindowInfoView) -> bool {
    match this.app_class {
        Some(class) => if is_browser_class(class) {
            this.uid == other.uid && this.app_class == other.app_class && this.app_name
                == other.app_name && this.title == other.title
        } else {
            this.uid == other.uid
        },
        None => false,
    }
}

/// The text of a part, or `"None"` where the part is not known.
pub open spec fn text_or_unknown(part: Option<Seq<char>>) -> Seq<char> {
    match part {
        Some(text) => text,
        None => UNKNOWN_TEXT@,
    }
}

/// The activity that a window shows; none where a part of it is not known.
pub open spec fn shown_activity(info: WindowInfoView) -> Option<ArchetypeView> {
    if info.title is Some && info.app_name is Some && info.app_class is Some {
        Some(ArchetypeView::ActiveWindow(info.title->0, info.app_name->0, info.app_class->0))
    } else {
        None
    }
}

fn same_text(a: &Option<String>, b: &Option<String>) -> (r: bool)
    ensures
        r == (a.deep_view() == b.deep_view()),
{
    match a {
        Some(x) => match b {
            Some(y) => *x == *y,
            None => false,
        },
        None => match b {
            Some(_) => false,
            None => true,
        },
    }
}

fn or_unknown(part: &Option<String>) -> (text: String)
    ensures
        text@ == text_or_unknown(part.deep_view()),
{
    match part {
        Some(text) => text.clone(),
        None => UNKNOWN_TEXT.to_owned(),
    }
}

impl WindowInfo {
    /// A window of which only the identifier is known.
    pub fn build(uid: u64) -> (info: Self)
        ensures
            info@ == (WindowInfoView { uid, title: None, app_name: None, app_class: None }),
    {
        Self { uid, title: None, app_class: None, app_name: None }
    }

    /// The same window with the given title.
    pub fn with_title(self, title: &str) -> (info: Self)
        ensures
            info@ == (WindowInfoView { title: Some(title@), ..self@ }),
    {
        let mut info = self;
        info.title = Some(title.to_owned());
        info
    }

    /// The same window with the given name of its application.
    pub fn with_app_name(self, app_name: &str) -> (info: Self)
        ensures
            info@ == (WindowInfoView { app_name: Some(app_name@), ..self@ }),
    {
        let mut info = self;
        info.app_name = Some(app_name.to_owned());
        info
    }

    /// The same window with the given class of its application.
    pub fn with_app_class(self, app_class: &str) -> (info: Self)
        ensures
            info@ == (WindowInfoView { app_class: Some(app_class@), ..self@ }),
    {
        let mut info = self;
        info.app_class = Some(app_class.to_owned());
        info
    }

    /// Title, application name and application class, in that order, each
    /// as `"None"` where it is not known.
    pub fn get_strings(&self) -> (strings: [String; 3])
        ensures
            strings@.len() == 3,
            strings@[0]@ == text_or_unknown(self@.title),
            strings@[1]@ == text_or_unknown(self@.app_name),
            strings@[2]@ == text_or_unknown(self@.app_class),
    {
        let title = or_unknown(&self.title);
        let app_name = or_unknown(&self.app_name);
        let app_class = or_unknown(&self.app_class);
        [title, app_name, app_class]
    }
}

impl PartialEq for WindowInfo {
    fn eq(&self, other: &Self) -> (r: bool) {
        match &self.app_class {
            Some(wm_class) => {
                if *wm_class == WM_CLASS_FIREFOX.to_owned() || *wm_class
                    == WM_CLASS_GOOGLE_CHROME.to_owned() {
                    self.uid == other.uid && same_text(&self.app_class, &other.app_class)
                        && same_text(&self.app_name, &other.app_name) && same_text(
                        &self.title,
                        &other.title,
                    )
                } else {
                    self.uid == other.uid
                }
            },
            None => false,
        }
    }
}

impl PartialEqSpecImpl for WindowInfo {
    open spec fn obeys_eq_spec() -> bool {
        true
    }

    open spec fn eq_spec(&self, other: &Self) -> bool {
        same_window(self@, other@)
    }
}

impl Eq for WindowInfo {}

impl Clone for WindowInfo {
    fn clone(&self) -> (r: Self)
        ensures
            r == *self,
    {
        WindowInfo {
            uid: self.uid,
            title: self.title.clone(),
            app_name: self.app_name.clone(),
            app_class: self.app_class.clone(),
        }
    }
}

impl From<WindowInfo> for Option<Archetype> {
    fn from(info: WindowInfo) -> (archetype: Option<Archetype>)
        ensures
            archetype.deep_view() == shown_activity(info@),
    {
        match info.title {
            Some(title) => match info.app_name {
                Some(app_name) => match info.app_class {
                    Some(app_class) => Some(Archetype::ActiveWindow(title, app_name, app_class)),
                    None => None,
                },
                None => None,
            },
            None => None,
        }
    }
}

impl FromSpecImpl<WindowInfo> for Option<Archetype> {
    open spec fn obeys_from_spec() -> bool {
        true
    }

    open spec fn from_spec(info: WindowInfo) -> Option<Archetype> {
        match info.title {
            Some(title) => match info.app_name {
                Some(app_name) => match info.app_class {
                    Some(app_class) => Some(Archetype::ActiveWindow(title, app_name, app_class)),
                    None => None,
                },
                None => None,
            },
            None => None,
        }
    }
}

} // verus!
