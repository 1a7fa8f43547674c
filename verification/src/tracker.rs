//! A quota tracker that warns through a caller-supplied messenger when the
//! tracked value approaches or passes its maximum.

use vstd::prelude::*;

verus! {

/// A sink for warning messages; library users implement it.
pub trait Messenger {
    /// Delivers one message.
    fn send(&self, msg: &str);
}

/// Which message a value deserves against a maximum. The thresholds are the
/// ratios 1, 9/10 and 3/4, compared exactly in integers; with a zero maximum
/// any positive value is over quota and zero is not.
pub open spec fn spec_quota_message(value: nat, max: nat) -> Option<Seq<char>> {
    if value >= max && value > 0 {
        Some("Error: You are over your quota!"@)
    } else if value * 10 >= max * 9 && value > 0 {
        Some("Urgent warning: You've used up over 90% of your quota!"@)
    } else if value * 4 >= max * 3 && value > 0 {
        Some("Warning: You've used up over 75% of your quota!"@)
    } else {
        None
    }
}

/// The message a value deserves against a maximum, if any.
pub fn quota_message(value: usize, max: usize) -> (r: Option<&'static str>)
    ensures
        match spec_quota_message(value as nat, max as nat) {
            Some(m) => r matches Some(s) && s@ == m,
            None => r is None,
        },
{
    if value == 0 {
        return None;
    }
    if value >= max {
        Some("Error: You are over your quota!")
    } else if (value as u128) * 10 >= (max as u128) * 9 {
        Some("Urgent warning: You've used up over 90% of your quota!")
    } else if (value as u128) * 4 >= (max as u128) * 3 {
        Some("Warning: You've used up over 75% of your quota!")
    } else {
        None
    }
}

/// Tracks a value against a maximum and warns through its messenger.
pub struct LimitTracker<'a, T: Messenger> {
    messenger: &'a T,
    value: usize,
    max: usize,
}

impl<'a, T: Messenger> LimitTracker<'a, T> {
    /// The tracked value.
    pub closed spec fn spec_value(&self) -> usize {
        self.value
    }

    /// The quota against which the value is compared.
    pub closed spec fn spec_max(&self) -> usize {
        self.max
    }

    /// A tracker that starts at zero.
    pub fn new(messenger: &'a T, max: usize) -> (t: LimitTracker<'a, T>)
        ensures
            t.spec_value() == 0,
            t.spec_max() == max,
    {
        LimitTracker { messenger, value: 0, max }
    }

    /// Records a new value and sends the warning it deserves, if any.
    pub fn set_value(&mut self, value: usize)
        ensures
            final(self).spec_value() == value,
            final(self).spec_max() == old(self).spec_max(),
    {
        self.value = value;
        match quota_message(value, self.max) {
            Some(msg) => self.messenger.send(msg),
            None => (),
        }
    }
}

} // verus!
