//! Keep-alive scheduler: decides when protocol-level pings are due.
//!
//! With a zero interval the feature is disabled and no ping is ever
//! scheduled. With a positive interval, arming at time `t` makes a ping due
//! at `t + interval`; when the timer fires, a ping is issued and the timer is
//! re-armed, indefinitely. Arming is also repeated opportunistically at the
//! start of every outbound call, so activity does not wait for the next
//! periodic tick. The caller owns the actual timer and the transport: this
//! type only computes deadlines.
use vstd::prelude::*;

verus! {

/// The keep-alive schedule: an interval in seconds, zero meaning disabled.
pub struct KeepAlive {
    interval_s: u16,
}

impl KeepAlive {
    /// The configured interval in seconds.
    pub closed spec fn interval(&self) -> u16 {
        self.interval_s
    }

    /// A schedule with the given interval; zero disables keep-alive.
    pub fn new(interval_s: u16) -> (k: Self)
        ensures
            k.interval() == interval_s,
    {
        KeepAlive { interval_s }
    }

    /// The configured interval in seconds, as a value.
    pub fn interval_secs(&self) -> (r: u16)
        ensures
            r == self.interval(),
    {
        self.interval_s
    }

    /// Whether pings are scheduled at all.
    pub fn is_enabled(&self) -> (r: bool)
        ensures
            r == (self.interval() > 0),
    {
        self.interval_s > 0
    }

    /// The next moment a ping is due, given the current time: `now_s` plus
    /// the interval, or nothing when keep-alive is disabled.
    pub fn arm(&self, now_s: u64) -> (r: Option<u64>)
        requires
            now_s + self.interval() <= u64::MAX,
        ensures
            self.interval() == 0 ==> r is None,
            self.interval() > 0 ==> (r matches Some(deadline) && deadline == now_s
                + self.interval()),
    {
        if self.interval_s > 0 {
            Some(now_s + (self.interval_s as u64))
        } else {
            None
        }
    }

    /// What to do when the armed timer fires at `now_s`: issue a ping if and
    /// only if keep-alive is enabled, and re-arm for one interval later.
    pub fn on_fire(&self, now_s: u64) -> (r: (bool, Option<u64>))
        requires
            now_s + self.interval() <= u64::MAX,
        ensures
            r.0 == (self.interval() > 0),
            self.interval() == 0 ==> r.1 is None,
            self.interval() > 0 ==> (r.1 matches Some(deadline) && deadline == now_s
                + self.interval()),
    {
        (self.interval_s > 0, self.arm(now_s))
    }
}

} // verus!
