use vstd::prelude::*;

verus! {

/// Milliseconds a cached value may answer a `get` before the next real read.
pub const READ_COOLDOWN_MS: u64 = 200;

/// Milliseconds between real writes; writes flicker and arrive in bursts from
/// repeated key presses, so they are throttled twice as hard as reads.
pub const WRITE_COOLDOWN_MS: u64 = 400;

/// The last known brightness together with the two cooldown timers.
///
/// `value` always comes from a real hardware observation or from a write this
/// process performed itself; the timestamps are readings of a monotonic
/// millisecond clock taken at the moment of the corresponding transaction.
#[derive(Clone, Copy, Debug, PartialEq, Eq, Structural)]
pub struct CacheState {
    pub value: u16,
    pub last_read_at: u64,
    pub last_write_at: u64,
}

impl CacheState {
    /// Well-formedness: brightness is a percentage.
    pub open spec fn wf(self) -> bool {
        self.value <= 100
    }

    /// A real hardware read is due: the read cooldown window has expired.
    pub open spec fn read_due(self, now: u64) -> bool {
        now >= self.last_read_at + READ_COOLDOWN_MS
    }

    /// A real hardware write is due: the write cooldown window has expired.
    pub open spec fn write_due(self, now: u64) -> bool {
        now >= self.last_write_at + WRITE_COOLDOWN_MS
    }

    /// The cache after recording a real read that observed `value`.
    pub open spec fn after_read(self, now: u64, value: u16) -> CacheState {
        CacheState { value, last_read_at: now, last_write_at: self.last_write_at }
    }

    /// The cache after recording a real write that applied `value`.
    pub open spec fn after_write(self, now: u64, value: u16) -> CacheState {
        CacheState { value, last_read_at: self.last_read_at, last_write_at: now }
    }

    /// Decide whether `get` must perform a real hardware read at time `now`.
    pub fn should_read_hardware(&self, now: u64) -> (b: bool)
        ensures
            b == self.read_due(now),
    {
        match now.checked_sub(self.last_read_at) {
            Some(elapsed) => elapsed >= READ_COOLDOWN_MS,
            None => false,
        }
    }

    /// Decide whether `set` may perform a real hardware write at time `now`.
    pub fn should_write_hardware(&self, now: u64) -> (b: bool)
        ensures
            b == self.write_due(now),
    {
        match now.checked_sub(self.last_write_at) {
            Some(elapsed) => elapsed >= WRITE_COOLDOWN_MS,
            None => false,
        }
    }
}

/// Brightness requests are clamped to the percentage range before anything
/// touches the hardware or the cache.
pub open spec fn clamp_spec(v: u16) -> u16 {
    if v > 100 {
        100
    } else {
        v
    }
}

/// Clamp a requested brightness to the upper bound of 100.
pub fn clamp_brightness(v: u16) -> (r: u16)
    ensures
        r == clamp_spec(v),
        r <= 100,
{
    if v > 100 {
        100
    } else {
        v
    }
}

/// The target of `adjust`: the current value moved by `step` with saturating
/// arithmetic, so a large negative step stops at 0 and a large positive step
/// stops at the top of the integer range (the final clamp to 100 happens in
/// `set`).
pub open spec fn step_target(current: u16, step: i16) -> u16 {
    if current + step < 0 {
        0u16
    } else if current + step > u16::MAX {
        u16::MAX
    } else {
        (current + step) as u16
    }
}

/// Apply a signed step to the current brightness, saturating at the bounds of
/// the value range.
pub fn apply_step(current: u16, step: i16) -> (r: u16)
    ensures
        r == step_target(current, step),
{
    let wide: i32 = current as i32 + step as i32;
    if wide < 0 {
        0
    } else if wide > u16::MAX as i32 {
        u16::MAX
    } else {
        wide as u16
    }
}

} // verus!
