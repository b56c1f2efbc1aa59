use vstd::prelude::*;

use crate::cache::CacheState;
use crate::cache::apply_step;
use crate::cache::clamp_brightness;
use crate::cache::clamp_spec;
use crate::cache::step_target;
use crate::error::BrightnessError;
use crate::port::DisplayPort;

verus! {

/// The uniform contract of a brightness manager: `get` reports the current
/// brightness as a percentage, `set` applies a clamped absolute value and
/// echoes it, `adjust` moves the current value by a signed step.
pub trait BrightnessManager: Sized {
    /// The manager's internal consistency, established by `new` and preserved
    /// by every operation.
    spec fn wf(&self) -> bool;

    /// The brightness value the manager currently holds (its cache): the
    /// value a `get` reports.
    spec fn current(&self) -> u16;

    /// Enumerate the available displays and build a manager over them.  An
    /// empty enumeration is fatal; a failed initial read is a hardware error.
    fn new() -> (r: Result<Self, BrightnessError>)
        ensures
            r matches Ok(m) ==> m.wf(),
            r matches Err(e) ==> e == BrightnessError::NoDisplaysFound || e
                == BrightnessError::HardwareError,
    ;

    /// The current brightness, from the cache or from the hardware.  The
    /// reported value is the one the manager holds after the call.
    fn get_brightness(&mut self) -> (r: Result<u16, BrightnessError>)
        requires
            old(self).wf(),
        ensures
            final(self).wf(),
            r matches Ok(v) ==> v <= 100 && v == final(self).current(),
            r matches Err(e) ==> e == BrightnessError::HardwareError && final(self).current()
                == old(self).current(),
    ;

    /// Apply `value` (clamped to 100) and echo the clamped value.  The echo
    /// is unconditional: a suppressed or failed write never turns a `set`
    /// into an error.
    fn set_brightness(&mut self, value: u16) -> (r: Result<u16, BrightnessError>)
        requires
            old(self).wf(),
        ensures
            final(self).wf(),
            r == set_reply(value),
    ;

    /// Move the current brightness by `step`, saturating at the bounds: the
    /// reported value is a saturated move from some percentage (the one that
    /// was read or cached).
    fn adjust_brightness(&mut self, step: i16) -> (r: Result<u16, BrightnessError>)
        requires
            old(self).wf(),
        ensures
            final(self).wf(),
            r matches Ok(v) ==> v <= 100 && exists|cur: u16|
                cur <= 100 && v == clamp_spec(step_target(cur, step)),
            r matches Err(e) ==> e == BrightnessError::HardwareError && final(self).current()
                == old(self).current(),
    ;
}

/// The reply of every `set`: the requested value clamped to 100, echoed even
/// when the write itself was suppressed by the cooldown.
pub open spec fn set_reply(value: u16) -> Result<u16, BrightnessError> {
    Ok(clamp_spec(value))
}

/// One or more display ports behind the cached brightness state.
///
/// All real hardware access is gated by the cache's two cooldown windows; the
/// manager owns the only mutable state of the system, so a daemon shares one
/// instance behind a lock.
pub struct CachedManager<P: DisplayPort> {
    displays: Vec<P>,
    cache: CacheState,
}

impl<P: DisplayPort> CachedManager<P> {
    /// The cached brightness state.
    pub closed spec fn cache(self) -> CacheState {
        self.cache
    }

    /// The display ports, in enumeration order.
    pub closed spec fn ports(self) -> Seq<P> {
        self.displays@
    }

    /// Well-formedness: at least one display, and the cache holds a percentage.
    pub open spec fn wf(self) -> bool {
        &&& self.ports().len() >= 1
        &&& self.cache().wf()
    }

    /// Build a manager over `displays`, reading the initial brightness from
    /// the first of them.  An empty enumeration is fatal; a failed initial
    /// read is a hardware error.
    pub fn with_displays(displays: Vec<P>, now: u64) -> (r: Result<CachedManager<P>, BrightnessError>)
        ensures
            displays@.len() == 0 <==> r == Err::<CachedManager<P>, BrightnessError>(
                BrightnessError::NoDisplaysFound,
            ),
            r matches Err(e) ==> e == BrightnessError::NoDisplaysFound
                || e == BrightnessError::HardwareError,
            r matches Ok(m) ==> {
                &&& m.wf()
                &&& m.ports().len() == displays@.len()
                &&& m.cache().last_read_at == now
                &&& m.cache().last_write_at == now
                &&& forall|i: int|
                    0 <= i < displays@.len() ==> m.ports()[i].writes() == displays@[i].writes()
                &&& forall|i: int| 1 <= i < displays@.len() ==> m.ports()[i] == displays@[i]
                &&& exists|raw: u16|
                    m.cache().value == clamp_spec(raw) && m.ports()[0].reads()
                        == displays@[0].reads().push(raw)
            },
    {
        let mut displays = displays;
        if displays.len() == 0 {
            return Err(BrightnessError::NoDisplaysFound);
        }
        let first = &mut displays[0];
        let observed = match first.read_brightness() {
            Ok(v) => v,
            Err(e) => {
                return Err(e);
            },
        };
        let value = clamp_brightness(observed);
        Ok(CachedManager {
            displays,
            cache: CacheState { value, last_read_at: now, last_write_at: now },
        })
    }

    /// How many displays the manager drives.
    pub fn display_count(&self) -> (r: usize)
        ensures
            r == self.ports().len(),
    {
        self.displays.len()
    }

    /// The cached brightness value, as last observed or applied.
    pub fn cached_value(&self) -> (r: u16)
        ensures
            r == self.cache().value,
    {
        self.cache.value
    }

    /// Read access to the display ports, for inspection in tests.
    pub fn displays(&self) -> (r: &Vec<P>)
        ensures
            r@ == self.ports(),
    {
        &self.displays
    }

    /// The brightness at time `now` (a monotonic millisecond clock reading).
    ///
    /// Inside the read cooldown window the cache answers and nothing changes;
    /// once the window has expired, one real read against the first display
    /// refreshes the cache, and a failed read is reported without a retry.
    pub fn get_brightness_at(&mut self, now: u64) -> (r: Result<u16, BrightnessError>)
        requires
            old(self).wf(),
        ensures
            final(self).wf(),
            !old(self).cache().read_due(now) ==> r == Ok::<u16, BrightnessError>(
                old(self).cache().value,
            ) && *final(self) == *old(self),
            old(self).cache().read_due(now) ==> match r {
                Ok(v) => v <= 100 && final(self).cache() == old(self).cache().after_read(now, v)
                    && exists|raw: u16|
                    v == clamp_spec(raw) && final(self).ports()[0].reads() == old(
                        self,
                    ).ports()[0].reads().push(raw),
                Err(e) => e == BrightnessError::HardwareError && final(self).cache() == old(
                    self,
                ).cache() && final(self).ports()[0].reads() == old(self).ports()[0].reads(),
            },
            old(self).cache().read_due(now) ==> forall|i: int|
                1 <= i < old(self).ports().len() ==> final(self).ports()[i] == old(
                    self,
                ).ports()[i],
            final(self).ports().len() == old(self).ports().len(),
            forall|i: int|
                0 <= i < old(self).ports().len() ==> final(self).ports()[i].writes() == old(
                    self,
                ).ports()[i].writes(),
    {
        if !self.cache.should_read_hardware(now) {
            return Ok(self.cache.value);
        }
        let first = &mut self.displays[0];
        match first.read_brightness() {
            Ok(observed) => {
                let value = clamp_brightness(observed);
                self.cache = CacheState {
                    value,
                    last_read_at: now,
                    last_write_at: self.cache.last_write_at,
                };
                Ok(value)
            },
            Err(e) => Err(e),
        }
    }

    /// Apply `value` at time `now`: clamp it, and if the write cooldown has
    /// expired, write it to every display in turn — a display that fails is
    /// skipped, never allowed to block the others — then record the value and
    /// the write time in the cache once.  Inside the cooldown window nothing
    /// is written and nothing changes; either way the reply echoes the
    /// requested clamped value.
    pub fn set_brightness_at(&mut self, now: u64, value: u16) -> (r: Result<u16, BrightnessError>)
        requires
            old(self).wf(),
        ensures
            final(self).wf(),
            r == set_reply(value),
            !old(self).cache().write_due(now) ==> *final(self) == *old(self),
            old(self).cache().write_due(now) ==> {
                &&& final(self).cache() == old(self).cache().after_write(now, clamp_spec(value))
                &&& final(self).ports().len() == old(self).ports().len()
                &&& forall|i: int|
                    0 <= i < old(self).ports().len() ==> final(self).ports()[i].writes() == old(
                        self,
                    ).ports()[i].writes().push(clamp_spec(value))
                &&& forall|i: int|
                    0 <= i < old(self).ports().len() ==> final(self).ports()[i].reads() == old(
                        self,
                    ).ports()[i].reads()
            },
    {
        let clamped = clamp_brightness(value);
        if !self.cache.should_write_hardware(now) {
            return Ok(clamped);
        }
        let ghost before = self.displays@;
        let mut i: usize = 0;
        while i < self.displays.len()
            invariant
                self.displays@.len() == before.len(),
                i <= before.len(),
                self.cache == old(self).cache(),
                forall|j: int|
                    0 <= j < i ==> self.displays@[j].writes() == before[j].writes().push(clamped),
                forall|j: int| 0 <= j < i ==> self.displays@[j].reads() == before[j].reads(),
                forall|j: int| i <= j < before.len() ==> self.displays@[j] == before[j],
            decreases before.len() - i,
        {
            let d = &mut self.displays[i];
            let _ = d.write_brightness(clamped);
            i = i + 1;
        }
        self.cache = CacheState {
            value: clamped,
            last_read_at: self.cache.last_read_at,
            last_write_at: now,
        };
        Ok(clamped)
    }

    /// Move the brightness by `step` at time `now`: read the current value
    /// (cached or fresh), saturate the sum at the bounds of the value range,
    /// and delegate to `set_brightness_at`, inheriting its cooldown and echo
    /// behaviour.
    pub fn adjust_brightness_at(&mut self, now: u64, step: i16) -> (r: Result<
        u16,
        BrightnessError,
    >)
        requires
            old(self).wf(),
        ensures
            final(self).wf(),
            r matches Ok(v) ==> v <= 100,
            r matches Err(e) ==> e == BrightnessError::HardwareError && final(self).cache() == old(
                self,
            ).cache() && final(self).ports()[0].reads() == old(self).ports()[0].reads(),
            r matches Ok(v) ==> exists|cur: u16|
                cur <= 100 && v == clamp_spec(step_target(cur, step)),
            // Cached current value: the reply is a saturated move from it.
            !old(self).cache().read_due(now) ==> r == set_reply(
                step_target(old(self).cache().value, step),
            ),
            !old(self).cache().read_due(now) && !old(self).cache().write_due(now) ==> *final(self)
                == *old(self),
            !old(self).cache().read_due(now) && old(self).cache().write_due(now) ==> {
                &&& final(self).cache() == old(self).cache().after_write(
                    now,
                    clamp_spec(step_target(old(self).cache().value, step)),
                )
                &&& forall|i: int|
                    0 <= i < old(self).ports().len() ==> final(self).ports()[i].writes() == old(
                        self,
                    ).ports()[i].writes().push(
                        clamp_spec(step_target(old(self).cache().value, step)),
                    )
            },
            // Fresh current value: the first display's answer is logged, moved
            // by the step, and — when the write cooldown has also expired —
            // fanned out to every display and recorded in the cache once.
            old(self).cache().read_due(now) ==> (r matches Ok(v) ==> exists|raw: u16|
                {
                    &&& v == clamp_spec(step_target(clamp_spec(raw), step))
                    &&& final(self).ports()[0].reads() == old(self).ports()[0].reads().push(raw)
                    &&& final(self).cache() == (if old(self).cache().write_due(now) {
                        old(self).cache().after_read(now, clamp_spec(raw)).after_write(now, v)
                    } else {
                        old(self).cache().after_read(now, clamp_spec(raw))
                    })
                    &&& old(self).cache().write_due(now) ==> forall|i: int|
                        0 <= i < old(self).ports().len() ==> final(self).ports()[i].writes() == old(
                            self,
                        ).ports()[i].writes().push(v)
                }),
            !old(self).cache().write_due(now) ==> forall|i: int|
                0 <= i < old(self).ports().len() ==> final(self).ports()[i].writes() == old(
                    self,
                ).ports()[i].writes(),
            r matches Err(e) ==> forall|i: int|
                0 <= i < old(self).ports().len() ==> final(self).ports()[i].writes() == old(
                    self,
                ).ports()[i].writes(),
            final(self).ports().len() == old(self).ports().len(),
    {
        let current = match self.get_brightness_at(now) {
            Ok(v) => v,
            Err(e) => {
                return Err(e);
            },
        };
        let target = apply_step(current, step);
        self.set_brightness_at(now, target)
    }
}

} // verus!
