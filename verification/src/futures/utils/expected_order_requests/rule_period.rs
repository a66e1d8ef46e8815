//! The period a rule looks back over.

use vstd::prelude::*;
use crate::errors::{Error, RuleSetFault};

verus! {

/// The shortest period a rule may have, in seconds.
pub const MIN_RULE_PERIOD_DURATION_SECS: u64 = 120;

pub const NANOS_PER_SEC: u128 = 1_000_000_000;

#[derive(PartialEq, Eq, Structural, Debug, Clone, Copy, Hash)]
pub enum RulePeriod {
    Seconds(u64),
    Minutes(u64),
    Hours(u64),
    Days(u64),
    Weeks(u64),
}

impl Default for RulePeriod {
    fn default() -> (r: Self)
        ensures
            r == RulePeriod::Seconds(0),
    {
        RulePeriod::Seconds(0)
    }
}

impl RulePeriod {
    /// The period's length in seconds.
    pub open spec fn seconds(self) -> int {
        match self {
            RulePeriod::Seconds(n) => n as int,
            RulePeriod::Minutes(n) => n * 60,
            RulePeriod::Hours(n) => n * 3600,
            RulePeriod::Days(n) => n * 86400,
            RulePeriod::Weeks(n) => n * 604800,
        }
    }

    /// The period is at least as long as the shortest period allowed.
    pub open spec fn long_enough(self) -> bool {
        self.seconds() >= MIN_RULE_PERIOD_DURATION_SECS
    }

    /// The time one period before `now_nanos`, or zero where the period
    /// reaches back beyond the epoch.
    pub open spec fn start_before(self, now_nanos: u64) -> int {
        if now_nanos >= self.seconds() * NANOS_PER_SEC {
            now_nanos - self.seconds() * NANOS_PER_SEC
        } else {
            0
        }
    }

    /// The period's length in seconds, or the fault where it is too short.
    pub open spec fn get_validated_duration_spec(self) -> Result<u128, Error> {
        if self.long_enough() {
            Ok(self.seconds() as u128)
        } else {
            Err(Error::RuleSetInvalid(RuleSetFault::MalformedPeriod))
        }
    }

    /// The period's length in seconds.
    pub fn get_duration(&self) -> (r: u128)
        ensures
            r == self.seconds(),
    {
        match self {
            RulePeriod::Seconds(n) => *n as u128,
            RulePeriod::Minutes(n) => *n as u128 * 60,
            RulePeriod::Hours(n) => *n as u128 * 3600,
            RulePeriod::Days(n) => *n as u128 * 86400,
            RulePeriod::Weeks(n) => *n as u128 * 604800,
        }
    }

    /// The period's length in seconds, if the period is long enough.
    pub fn get_validated_duration(&self) -> (r: Result<u128, Error>)
        ensures
            r == self.get_validated_duration_spec(),
    {
        let duration_secs = self.get_duration();
        if duration_secs < MIN_RULE_PERIOD_DURATION_SECS as u128 {
            return Err(Error::RuleSetInvalid(RuleSetFault::MalformedPeriod));
        }
        Ok(duration_secs)
    }

    /// The start of the window that ends at `now_nanos`.
    pub fn window_start(&self, now_nanos: u64) -> (r: u64)
        ensures
            r == self.start_before(now_nanos),
    {
        let selected_nanos = self.get_duration() * NANOS_PER_SEC;
        if now_nanos as u128 >= selected_nanos {
            (now_nanos as u128 - selected_nanos) as u64
        } else {
            0
        }
    }

    /// The start of the window that ends at `now_nanos`, if the period is
    /// long enough.
    pub fn get_min_nanos_timestamp(&self, now_nanos: u64) -> (r: Result<u64, Error>)
        ensures
            self.long_enough() ==> r == Ok::<u64, Error>(self.start_before(now_nanos) as u64),
            !self.long_enough() ==> r == Err::<u64, Error>(
                Error::RuleSetInvalid(RuleSetFault::MalformedPeriod),
            ),
    {
        match self.get_validated_duration() {
            Ok(_) => Ok(self.window_start(now_nanos)),
            Err(e) => Err(e),
        }
    }
}

} // verus!
