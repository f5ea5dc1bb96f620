//! Tracking how much of a quota is used, and warning as it runs out.

use vstd::prelude::*;

verus! {

/// Something that can carry a message to whoever should read it.
pub trait Messenger {
    /// Carries `msg`.
    fn send(&self, msg: &str);
}

/// How much of a quota is used.
#[derive(Clone, Copy, Debug, PartialEq, Eq, Structural)]
pub enum Usage {
    /// Less than three quarters.
    Within,
    /// Three quarters or more, less than nine tenths.
    High,
    /// Nine tenths or more, not yet all.
    Critical,
    /// All of it, or more.
    Exhausted,
}

/// How much of a quota of `max` is used when `value` is used. With nothing
/// used the quota is within bounds, whatever it is; a quota of nothing is
/// exhausted by any use.
pub open spec fn usage(value: int, max: int) -> Usage {
    if value <= 0 {
        Usage::Within
    } else if value >= max {
        Usage::Exhausted
    } else if 10 * value >= 9 * max {
        Usage::Critical
    } else if 4 * value >= 3 * max {
        Usage::High
    } else {
        Usage::Within
    }
}

/// The words of the message that goes out for `usage`, if one does.
pub open spec fn warning(usage: Usage) -> Option<Seq<char>> {
    match usage {
        Usage::Within => None,
        Usage::High => Some("Warning! You've used up ove r75% of your quota!"@),
        Usage::Critical => Some("Urgent warning: You've used up over 90% of your quota!"@),
        Usage::Exhausted => Some("Error: You are over your quota!"@),
    }
}

impl Usage {
    /// Measures `value` against a quota of `max`.
    pub fn of(value: usize, max: usize) -> (u: Usage)
        ensures
            u == usage(value as int, max as int),
    {
        let used: u128 = value as u128;
        let all: u128 = max as u128;
        if value == 0 {
            Usage::Within
        } else if value >= max {
            Usage::Exhausted
        } else if 10 * used >= 9 * all {
            Usage::Critical
        } else if 4 * used >= 3 * all {
            Usage::High
        } else {
            Usage::Within
        }
    }

    /// The message that goes out for this usage, if one does.
    pub fn message(self) -> (m: Option<&'static str>)
        ensures
            match m {
                Some(text) => warning(self) == Some(text@),
                None => warning(self) is None,
            },
    {
        match self {
            Usage::Within => None,
            Usage::High => Some("Warning! You've used up ove r75% of your quota!"),
            Usage::Critical => Some("Urgent warning: You've used up over 90% of your quota!"),
            Usage::Exhausted => Some("Error: You are over your quota!"),
        }
    }
}

/// Keeps the value used of a quota and sends a warning through its
/// messenger as the quota runs out.
pub struct LimitTracker<'a, T: Messenger> {
    messenger: &'a T,
    value: usize,
    max: usize,
}

impl<'a, T: Messenger> LimitTracker<'a, T> {
    /// The messenger that the warnings go to.
    pub closed spec fn messenger(&self) -> &'a T {
        self.messenger
    }

    /// The value last set.
    pub closed spec fn value(&self) -> usize {
        self.value
    }

    /// The quota.
    pub closed spec fn max(&self) -> usize {
        self.max
    }

    /// A tracker of a quota of `max`, of which nothing is used yet.
    pub fn new(messenger: &'a T, max: usize) -> (tracker: LimitTracker<'a, T>)
        ensures
            tracker.messenger() == messenger,
            tracker.value() == 0,
            tracker.max() == max,
    {
        LimitTracker { messenger, value: 0, max }
    }

    /// How much of the quota is used.
    pub fn usage(&self) -> (u: Usage)
        ensures
            u == usage(self.value() as int, self.max() as int),
    {
        Usage::of(self.value, self.max)
    }

    /// Sets the value used, and sends the messenger the warning that the
    /// new usage calls for.
    pub fn set_value(&mut self, value: usize)
        ensures
            final(self).value() == value,
            final(self).max() == old(self).max(),
            final(self).messenger() == old(self).messenger(),
    {
        self.value = value;
        match Usage::of(self.value, self.max).message() {
            Some(text) => self.messenger.send(text),
            None => {},
        }
    }
}

} // verus!
