//! One observation of the focused window.

use crate::text::{trim, trimmed};
use vstd::prelude::*;
use vstd::string::StringExecFns;

verus! {

/// What an `ApplicationEvent` stands for.
pub struct Snapshot {
    /// When the window was sampled, in milliseconds since the epoch.
    pub t: int,
    /// The application's name.
    pub name: Seq<char>,
    /// The window's title.
    pub title: Seq<char>,
    pub x: int,
    pub y: int,
    pub width: int,
    pub height: int,
    /// The name and the title joined by one space, trimmed.
    pub text: Seq<char>,
}

/// The text that describes a window: its application's name and its title,
/// joined by one space, without surrounding white space.
pub open spec fn window_text(name: Seq<char>, title: Seq<char>) -> Seq<char> {
    trimmed(name + seq![' '] + title)
}

/// Whether two observations show the same window at the same place: they agree
/// on position, size and text. Neither the time nor the name and title as such
/// take part.
pub open spec fn same_sample(a: Snapshot, b: Snapshot) -> bool {
    &&& a.x == b.x
    &&& a.y == b.y
    &&& a.width == b.width
    &&& a.height == b.height
    &&& a.text == b.text
}

/// One observation of the focused window. Its text is always the one that
/// `window_text` derives from its name and title.
#[derive(Debug, PartialEq)]
pub struct ApplicationEvent {
    t: i64,
    name: String,
    title: String,
    x: i64,
    y: i64,
    width: i64,
    height: i64,
    text: String,
}

impl View for ApplicationEvent {
    type V = Snapshot;

    closed spec fn view(&self) -> Snapshot {
        Snapshot {
            t: self.t as int,
            name: self.name@,
            title: self.title@,
            x: self.x as int,
            y: self.y as int,
            width: self.width as int,
            height: self.height as int,
            text: self.text@,
        }
    }
}

impl DeepView for ApplicationEvent {
    type V = Snapshot;

    open spec fn deep_view(&self) -> Snapshot {
        self@
    }
}

impl ApplicationEvent {
    #[verifier::type_invariant]
    spec fn well_formed(&self) -> bool {
        self.text@ == window_text(self.name@, self.title@)
    }

    /// The observation of a window of application `name` with title `title`,
    /// made at time `t` (milliseconds since the epoch), whose frame has its
    /// corner at (`x`, `y`) and the given size.
    pub fn new(t: i64, name: String, title: String, x: i64, y: i64, width: i64, height: i64) -> (e:
        ApplicationEvent)
        ensures
            e@ == (Snapshot {
                t: t as int,
                name: name@,
                title: title@,
                x: x as int,
                y: y as int,
                width: width as int,
                height: height as int,
                text: window_text(name@, title@),
            }),
    {
        let mut joined = name.clone();
        joined.append(" ");
        joined.append(title.as_str());
        proof {
            reveal_strlit(" ");
            assert(" "@ =~= seq![' ']);
        }
        let text = String::from_str(trim(joined.as_str()));
        ApplicationEvent { t, name, title, x, y, width, height, text }
    }

    /// When the window was sampled, in milliseconds since the epoch.
    pub fn t(&self) -> (t: i64)
        ensures
            t == self@.t,
    {
        self.t
    }

    /// The application's name.
    pub fn name(&self) -> (name: &str)
        ensures
            name@ == self@.name,
    {
        self.name.as_str()
    }

    /// The window's title.
    pub fn title(&self) -> (title: &str)
        ensures
            title@ == self@.title,
    {
        self.title.as_str()
    }

    /// The horizontal position of the window's frame.
    pub fn x(&self) -> (x: i64)
        ensures
            x == self@.x,
    {
        self.x
    }

    /// The vertical position of the window's frame.
    pub fn y(&self) -> (y: i64)
        ensures
            y == self@.y,
    {
        self.y
    }

    /// The width of the window's frame.
    pub fn width(&self) -> (width: i64)
        ensures
            width == self@.width,
    {
        self.width
    }

    /// The height of the window's frame.
    pub fn height(&self) -> (height: i64)
        ensures
            height == self@.height,
    {
        self.height
    }

    /// The name and the title joined by one space, trimmed.
    pub fn text(&self) -> (text: &str)
        ensures
            text@ == self@.text,
            text@ == window_text(self@.name, self@.title),
    {
        proof {
            use_type_invariant(self);
        }
        self.text.as_str()
    }

    /// Whether `self` and `other` show the same window at the same place.
    pub fn matches(&self, other: &ApplicationEvent) -> (same: bool)
        ensures
            same == same_sample(self@, other@),
    {
        self.x == other.x && self.y == other.y && self.width == other.width && self.height
            == other.height && self.text == other.text
    }
}

impl Clone for ApplicationEvent {
    fn clone(&self) -> (e: ApplicationEvent)
        ensures
            e@ == self@,
    {
        proof {
            use_type_invariant(self);
        }
        ApplicationEvent {
            t: self.t,
            name: self.name.clone(),
            title: self.title.clone(),
            x: self.x,
            y: self.y,
            width: self.width,
            height: self.height,
            text: self.text.clone(),
        }
    }
}

} // verus!
