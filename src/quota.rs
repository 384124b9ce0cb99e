use vstd::prelude::*;

verus! {

/// Something that can deliver a message to whoever watches a quota.
pub trait Messenger {
    fn send(&self, msg: &str);
}

/// How close a value has come to its quota.
#[derive(PartialEq, Eq, Structural, Clone, Copy, Debug)]
pub enum Alert {
    /// At or above the quota.
    OverQuota,
    /// At or above 90% of it.
    Urgent,
    /// At or above 75% of it.
    Warning,
}

/// The alert that `value` out of a quota of `max` calls for, comparing the
/// exact ratio `value / max`. With `max == 0` every positive value is over the
/// quota, and `0 / 0` calls for nothing.
pub open spec fn alert_for(value: int, max: int) -> Option<Alert> {
    if max == 0 && value == 0 {
        None
    } else if value >= max {
        Some(Alert::OverQuota)
    } else if 10 * value >= 9 * max {
        Some(Alert::Urgent)
    } else if 4 * value >= 3 * max {
        Some(Alert::Warning)
    } else {
        None
    }
}

impl Alert {
    /// The text sent for this alert.
    pub fn message(&self) -> (r: &'static str)
        ensures
            match self {
                Alert::OverQuota => r@ == "Error: You are over your quota!"@,
                Alert::Urgent => r@ == "Urgent warning: You've used up over 90% of your quota!"@,
                Alert::Warning => r@ == "Warning: You've used up over 75% of your quota!"@,
            },
    {
        match self {
            Alert::OverQuota => "Error: You are over your quota!",
            Alert::Urgent => "Urgent warning: You've used up over 90% of your quota!",
            Alert::Warning => "Warning: You've used up over 75% of your quota!",
        }
    }
}

/// The alert, if any, for a usage of `value` against a quota of `max`.
pub fn check_usage(value: usize, max: usize) -> (r: Option<Alert>)
    ensures
        r == alert_for(value as int, max as int),
{
    let v = value as u128;
    let m = max as u128;
    if max == 0 && value == 0 {
        None
    } else if v >= m {
        Some(Alert::OverQuota)
    } else if 10 * v >= 9 * m {
        Some(Alert::Urgent)
    } else if 4 * v >= 3 * m {
        Some(Alert::Warning)
    } else {
        None
    }
}

/// Tracks a value against a quota and tells a messenger when the value comes
/// close to the quota or passes it.
pub struct LimitTracker<'a, T: Messenger> {
    messenger: &'a T,
    value: usize,
    max: usize,
}

impl<'a, T: Messenger> LimitTracker<'a, T> {
    pub closed spec fn spec_value(&self) -> usize {
        self.value
    }

    pub closed spec fn spec_max(&self) -> usize {
        self.max
    }

    /// A tracker at 0 against a quota of `max`, reporting to `messenger`.
    pub fn new(messenger: &'a T, max: usize) -> (t: Self)
        ensures
            t.spec_value() == 0,
            t.spec_max() == max,
    {
        LimitTracker { messenger, value: 0, max }
    }

    /// Records `value` and sends the message of `check_usage(value, max)`,
    /// if there is one.
    pub fn set_value(&mut self, value: usize)
        ensures
            final(self).spec_value() == value,
            final(self).spec_max() == old(self).spec_max(),
    {
        self.value = value;
        if let Some(alert) = check_usage(self.value, self.max) {
            self.messenger.send(alert.message());
        }
    }
}

} // verus!
