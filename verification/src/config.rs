//! How the client paces itself between two steps.

use std::str::FromStr;
use std::time::Duration;
use vstd::prelude::*;

verus! {

/// What the client waits for between two steps.
#[derive(Debug, Clone, Copy, PartialEq, Eq, Structural)]
pub enum Interval {
    /// Nothing: go on at once.
    NoWait,
    /// A fixed time.
    Timer,
    /// A key press.
    Input,
}

/// What has to be done to wait as an interval asks.
#[derive(Debug, Clone, Copy, PartialEq, Eq)]
pub enum WaitAction {
    /// Go on at once.
    Proceed,
    /// Sleep for the given time.
    Sleep(Duration),
    /// Read one byte from the standard input.
    ReadInput,
}

impl Interval {
    /// The interval that a word names, if it names one.
    pub open spec fn named_by(word: Seq<char>) -> Option<Interval> {
        if word == "none"@ {
            Some(Interval::NoWait)
        } else if word == "timer"@ {
            Some(Interval::Timer)
        } else if word == "input"@ {
            Some(Interval::Input)
        } else {
            None
        }
    }

    /// What parsing a word may return: the interval that the word names,
    /// or, for a word that names none, the list of the possible values.
    pub open spec fn is_parse_of(out: Result<Interval, &'static str>, word: Seq<char>) -> bool {
        match Interval::named_by(word) {
            Some(interval) => out == Ok::<Interval, &'static str>(interval),
            None => out matches Err(message) && message@
                == "possible values: none, timer, input"@,
        }
    }

    /// The action that waits as the interval asks.
    pub open spec fn action_of(self, duration: Option<Duration>) -> WaitAction
        recommends
            self == Interval::Timer ==> duration is Some,
    {
        match self {
            Interval::NoWait => WaitAction::Proceed,
            Interval::Timer => WaitAction::Sleep(duration->Some_0),
            Interval::Input => WaitAction::ReadInput,
        }
    }

    /// Parses the name of an interval: `none`, `timer` or `input`. Any other
    /// word is refused with the list of the possible values.
    pub fn from_str(s: &str) -> (out: Result<Interval, &'static str>)
        ensures
            Interval::is_parse_of(out, s@),
    {
        let word = s.to_owned();
        if word == "none".to_owned() {
            Ok(Interval::NoWait)
        } else if word == "timer".to_owned() {
            Ok(Interval::Timer)
        } else if word == "input".to_owned() {
            Ok(Interval::Input)
        } else {
            Err("possible values: none, timer, input")
        }
    }

    /// Says what to do to wait as the interval asks. A timer needs a
    /// duration.
    pub fn wait_action(self, duration: Option<Duration>) -> (action: WaitAction)
        requires
            self == Interval::Timer ==> duration is Some,
        ensures
            action == self.action_of(duration),
    {
        match self {
            Interval::NoWait => WaitAction::Proceed,
            Interval::Timer => match duration {
                Some(time) => WaitAction::Sleep(time),
                None => WaitAction::Proceed,
            },
            Interval::Input => WaitAction::ReadInput,
        }
    }
}

impl FromStr for Interval {
    type Err = &'static str;

    /// Parses the name of an interval, as the inherent function of the same
    /// name does.
    fn from_str(s: &str) -> (out: Result<Self, Self::Err>)
        ensures
            Interval::is_parse_of(out, s@),
    {
        Interval::from_str(s)
    }
}

} // verus!
