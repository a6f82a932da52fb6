use vstd::prelude::*;
use vstd::string::*;

verus! {

pub struct GoalInfo {
    pub scored_by: String,
    pub assist_by: Option<String>,
}

pub struct FoulInfo {
    pub fouled_by: String,
    pub card_name: Option<String>,
}

/// A change in a live match that observers are told about.
pub enum MatchInfo {
    Goal(GoalInfo),
    Foul(FoulInfo),
}

/// The text of an optional name, empty when there is none.
pub open spec fn name_or_empty(name: Option<String>) -> Seq<char> {
    match name {
        Some(n) => n@,
        None => Seq::empty(),
    }
}

/// The one-line report of a match event.
pub open spec fn match_info_text(info: MatchInfo) -> Seq<char> {
    match info {
        MatchInfo::Goal(goal) => "Goal scored by "@ + goal.scored_by@ + " and assist by "@
            + name_or_empty(goal.assist_by) + "."@,
        MatchInfo::Foul(foul) => "Fouled by "@ + foul.fouled_by@ + " and "@ + name_or_empty(
            foul.card_name,
        ) + " card given."@,
    }
}

/// Appends `name`, or nothing when it is absent.
fn append_optional(text: &mut String, name: &Option<String>)
    ensures
        final(text)@ == old(text)@ + name_or_empty(*name),
{
    match name {
        Some(n) => text.append(n.as_str()),
        None => {
            assert(old(text)@ + Seq::<char>::empty() =~= old(text)@);
        },
    }
}

/// Renders a match event as one line of text.
pub fn format_match_info(match_info: &MatchInfo) -> (r: String)
    ensures
        r@ == match_info_text(*match_info),
{
    match match_info {
        MatchInfo::Goal(goal) => {
            let mut text = String::from_str("Goal scored by ");
            text.append(goal.scored_by.as_str());
            text.append(" and assist by ");
            append_optional(&mut text, &goal.assist_by);
            text.append(".");
            text
        },
        MatchInfo::Foul(foul) => {
            let mut text = String::from_str("Fouled by ");
            text.append(foul.fouled_by.as_str());
            text.append(" and ");
            append_optional(&mut text, &foul.card_name);
            text.append(" card given.");
            text
        },
    }
}

/// Something that wants to hear about match events; `update` returns what it shows.
pub trait Observer {
    fn update(&self, match_info: &MatchInfo) -> (r: String)
        ensures
            r@ == match_info_text(*match_info),
    ;
}

/// Shows match events on a phone.
pub struct MobileApp;

/// Shows match events on a web page.
pub struct WebApp;

impl Observer for MobileApp {
    fn update(&self, match_info: &MatchInfo) -> (r: String) {
        format_match_info(match_info)
    }
}

impl Observer for WebApp {
    fn update(&self, match_info: &MatchInfo) -> (r: String) {
        format_match_info(match_info)
    }
}

/// A live match that keeps a list of observers and tells each of them about events.
pub struct ConcreteSubject {
    pub observers: Vec<Box<dyn Observer>>,
    pub match_info: Option<MatchInfo>,
}

impl ConcreteSubject {
    /// Adds an observer after those already registered.
    pub fn register(&mut self, observer: Box<dyn Observer>)
        ensures
            final(self).observers@ == old(self).observers@.push(observer),
            final(self).match_info == old(self).match_info,
    {
        self.observers.push(observer);
    }

    /// Tells every observer, in order of registration, about `match_info`, and returns what
    /// each of them showed.
    pub fn notify(&self, match_info: MatchInfo) -> (r: Vec<String>)
        ensures
            r@.len() == self.observers@.len(),
            forall|i: int| 0 <= i < r@.len() ==> (#[trigger] r@[i])@ == match_info_text(match_info),
    {
        let mut shown: Vec<String> = Vec::new();
        let mut i: usize = 0;
        while i < self.observers.len()
            invariant
                i <= self.observers@.len(),
                shown@.len() == i,
                forall|j: int| 0 <= j < i ==> (#[trigger] shown@[j])@ == match_info_text(match_info),
            decreases self.observers@.len() - i,
        {
            shown.push(self.observers[i].update(&match_info));
            i = i + 1;
        }
        shown
    }
}

} // verus!
