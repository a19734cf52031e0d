//! Arithmetic on a free-running 32-bit cycle counter: elapsed ticks across
//! wraparound, timeouts converted from milliseconds, and deadlines.

use vstd::prelude::*;

verus! {

/// Longest timeout, in ticks, that a deadline is started with: half the
/// counter's period. Elapsed ticks are only told apart from a wrapped
/// counter while the interval is short against the full period.
pub const MAX_TIMEOUT_TICKS: u32 = 0x7FFF_FFFF;

/// Ticks counted from the reading `since` to the reading `now` of a counter
/// that wraps from `u32::MAX` to 0.
pub open spec fn ticks_between(now: u32, since: u32) -> u32 {
    if now >= since {
        (now - since) as u32
    } else {
        (now - since + 0x1_0000_0000) as u32
    }
}

/// The counter reading `ticks` ticks after the reading `since`.
pub open spec fn reading_after(since: u32, ticks: u32) -> u32 {
    if since + ticks <= u32::MAX {
        (since + ticks) as u32
    } else {
        (since + ticks - 0x1_0000_0000) as u32
    }
}

/// What `embedded_time` converts `millis` milliseconds to, in ticks of a
/// clock that counts `freq_hz` ticks per second; `None` where it reports a
/// failed conversion.
pub uninterp spec fn scaled_ticks(millis: u32, freq_hz: u32) -> Option<u32>;

/// `embedded_time::duration::Duration::to_generic` on `Milliseconds(millis)`
/// with the scaling factor `1 / freq_hz`, then `Generic::integer`: the
/// duration expressed in ticks of `1 / freq_hz` seconds. The result depends
/// on the two arguments alone.
#[verifier::external_body]
fn convert_millis(millis: u32, freq_hz: u32) -> (ticks: Option<u32>)
    ensures
        ticks == scaled_ticks(millis, freq_hz),
{
    let period = embedded_time::fraction::Fraction::new(1, freq_hz);
    let millis = embedded_time::duration::Milliseconds(millis);
    match embedded_time::duration::Duration::to_generic::<u32>(millis, period) {
        Ok(generic) => Some(generic.integer()),
        Err(_) => None,
    }
}

/// What `embedded_time` converts `ticks` ticks of a clock that counts
/// `freq_hz` ticks per second to, in whole milliseconds; `None` where it
/// reports a failed conversion.
pub uninterp spec fn scaled_millis(ticks: u32, freq_hz: u32) -> Option<u32>;

/// `TryFrom<Generic<u32>>` of `embedded_time::duration::Milliseconds<u32>`,
/// on the generic duration of `ticks` times `1 / freq_hz` seconds: that
/// duration in whole milliseconds. The result depends on the two arguments
/// alone.
#[verifier::external_body]
fn convert_ticks(ticks: u32, freq_hz: u32) -> (millis: Option<u32>)
    ensures
        millis == scaled_millis(ticks, freq_hz),
{
    let period = embedded_time::fraction::Fraction::new(1, freq_hz);
    let generic = embedded_time::duration::Generic::new(ticks, period);
    match embedded_time::duration::Milliseconds::<u32>::try_from(generic) {
        Ok(millis) => Some(millis.0),
        Err(_) => None,
    }
}

/// A converted timeout that a deadline can be started with: the tick count
/// itself while it is at most `MAX_TIMEOUT_TICKS`, nothing otherwise.
pub open spec fn usable_ticks(converted: Option<u32>) -> Option<u32> {
    match converted {
        Some(ticks) => if ticks <= MAX_TIMEOUT_TICKS {
            Some(ticks)
        } else {
            None
        },
        None => None,
    }
}

/// Keeps a converted timeout only if it is short enough for a deadline.
pub fn usable_timeout(converted: Option<u32>) -> (ticks: Option<u32>)
    ensures
        ticks == usable_ticks(converted),
{
    match converted {
        Some(ticks) => if ticks <= MAX_TIMEOUT_TICKS {
            Some(ticks)
        } else {
            None
        },
        None => None,
    }
}

/// A point on the counter and a number of ticks to let pass from it.
#[derive(Clone, Copy, Debug, PartialEq, Eq, Structural)]
pub struct Deadline {
    /// Counter reading at which the wait began.
    pub start: u32,
    /// Ticks after which the wait is over.
    pub duration: u32,
}

impl Deadline {
    /// Ticks passed since the wait began, at the reading `now`.
    pub open spec fn elapsed_at(self, now: u32) -> u32 {
        ticks_between(now, self.start)
    }

    /// The wait is over at the reading `now`: at least `duration` ticks have
    /// passed since `start`.
    pub open spec fn expired_at(self, now: u32) -> bool {
        self.elapsed_at(now) >= self.duration
    }

    /// A deadline `duration` ticks after the reading `start`.
    pub fn new(start: u32, duration: u32) -> (deadline: Self)
        ensures
            deadline == (Deadline { start, duration }),
    {
        Deadline { start, duration }
    }

    /// Ticks passed since the wait began.
    pub fn elapsed(&self, now: u32) -> (ticks: u32)
        ensures
            ticks == self.elapsed_at(now),
    {
        now.wrapping_sub(self.start)
    }

    /// Tells whether the wait is over at the reading `now`.
    pub fn expired(&self, now: u32) -> (over: bool)
        ensures
            over == self.expired_at(now),
    {
        now.wrapping_sub(self.start) >= self.duration
    }
}

/// The cycle counter of a core clocked at `FREQ_HZ` ticks per second.
#[derive(Clone, Copy, Debug)]
pub struct MonoTimer<const FREQ_HZ: u32> {}

impl<const FREQ_HZ: u32> MonoTimer<FREQ_HZ> {
    /// The timeout of `millis` milliseconds in ticks of this timer, where
    /// it converts and a deadline can be started with it.
    pub open spec fn spec_timeout_ticks(millis: u32) -> Option<u32> {
        usable_ticks(scaled_ticks(millis, FREQ_HZ))
    }

    /// A timer for a counter that runs at `hclk_hz` ticks per second.
    ///
    /// The frequency the counter is driven with has to be the one the timer
    /// is configured for: every timeout is scaled by it.
    pub fn new(hclk_hz: u32) -> (timer: Self)
        requires
            hclk_hz == FREQ_HZ,
        ensures
            timer.frequency() == hclk_hz,
    {
        MonoTimer {}
    }

    /// Ticks per second.
    #[verifier::when_used_as_spec(spec_frequency)]
    pub fn frequency(&self) -> (hz: u32)
        ensures
            hz == FREQ_HZ,
    {
        FREQ_HZ
    }

    /// Ticks per second.
    pub open spec fn spec_frequency(&self) -> u32 {
        FREQ_HZ
    }

    /// Ticks passed from the reading `since` to the reading `now`, with the
    /// counter's wraparound taken into account.
    pub fn elapsed(&self, now: u32, since: u32) -> (ticks: u32)
        ensures
            ticks == ticks_between(now, since),
    {
        now.wrapping_sub(since)
    }

    /// The time from the reading `since` to the reading `now` in whole
    /// milliseconds; `None` where the conversion fails.
    pub fn elapsed_millis(&self, now: u32, since: u32) -> (millis: Option<u32>)
        ensures
            millis == scaled_millis(ticks_between(now, since), FREQ_HZ),
    {
        convert_ticks(now.wrapping_sub(since), FREQ_HZ)
    }

    /// Converts a timeout in milliseconds to ticks of this timer.
    ///
    /// `None` where the conversion fails or gives more than
    /// `MAX_TIMEOUT_TICKS`.
    pub fn timeout_ticks(&self, millis: u32) -> (ticks: Option<u32>)
        ensures
            ticks == Self::spec_timeout_ticks(millis),
    {
        usable_timeout(convert_millis(millis, FREQ_HZ))
    }
}

/// Elapsed ticks are exact across the counter's wraparound: a reading taken
/// `ticks` ticks after `since` is `ticks` ticks from it, wherever on the
/// counter `since` lies.
pub proof fn elapsed_is_wraparound_safe(since: u32, ticks: u32)
    ensures
        ticks_between(reading_after(since, ticks), since) == ticks,
{
}

/// A deadline is over exactly from its duration on: at a reading taken
/// `ticks` ticks after the start it has expired if and only if `ticks` is at
/// least the duration.
pub proof fn deadline_expires_at_duration(deadline: Deadline, ticks: u32)
    ensures
        deadline.expired_at(reading_after(deadline.start, ticks)) <==> ticks >= deadline.duration,
{
}

} // verus!
