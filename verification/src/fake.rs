use vstd::prelude::*;

use crate::cache::clamp_spec;
use crate::cache::step_target;
use crate::error::BrightnessError;
use crate::manager::set_reply;
use crate::manager::BrightnessManager;
use crate::manager::CachedManager;
use crate::port::DisplayPort;

verus! {

/// A deterministic in-memory monitor used to exercise the manager without
/// real hardware.
///
/// It models a display whose brightness is `value`, logs the answer of every
/// successful read and every write that was attempted, and can be told to
/// fail reads or writes to simulate an unresponsive monitor.  A failing
/// write is still logged — the transaction was attempted — but does not
/// change `value`.
#[derive(Debug)]
pub struct FakeDisplay {
    pub value: u16,
    pub fail_reads: bool,
    pub fail_writes: bool,
    pub reads_answered: Vec<u16>,
    pub writes_made: Vec<u16>,
}

impl FakeDisplay {
    /// A healthy fake display currently at brightness `value`.
    pub fn new(value: u16) -> (r: FakeDisplay)
        ensures
            r.value == value,
            !r.fail_reads,
            !r.fail_writes,
            r.reads_answered@ == Seq::<u16>::empty(),
            r.writes_made@ == Seq::<u16>::empty(),
    {
        FakeDisplay {
            value,
            fail_reads: false,
            fail_writes: false,
            reads_answered: Vec::new(),
            writes_made: Vec::new(),
        }
    }

    /// A fake display whose every transaction fails when the flags say so.
    pub fn failing(value: u16, fail_reads: bool, fail_writes: bool) -> (r: FakeDisplay)
        ensures
            r.value == value,
            r.fail_reads == fail_reads,
            r.fail_writes == fail_writes,
            r.reads_answered@ == Seq::<u16>::empty(),
            r.writes_made@ == Seq::<u16>::empty(),
    {
        FakeDisplay {
            value,
            fail_reads,
            fail_writes,
            reads_answered: Vec::new(),
            writes_made: Vec::new(),
        }
    }

    /// How many read transactions this display has answered.
    pub fn read_count(&self) -> (r: usize)
        ensures
            r == self.reads().len(),
    {
        self.reads_answered.len()
    }

    /// The values of all write transactions that reached this display.
    pub fn write_log(&self) -> (r: &Vec<u16>)
        ensures
            r@ == self.writes(),
    {
        &self.writes_made
    }
}

impl DisplayPort for FakeDisplay {
    open spec fn writes(&self) -> Seq<u16> {
        self.writes_made@
    }

    open spec fn reads(&self) -> Seq<u16> {
        self.reads_answered@
    }

    fn read_brightness(&mut self) -> (r: Result<u16, BrightnessError>)
        ensures
            final(self).value == old(self).value,
            final(self).fail_reads == old(self).fail_reads,
            final(self).fail_writes == old(self).fail_writes,
            r == if old(self).fail_reads {
                Err::<u16, BrightnessError>(BrightnessError::HardwareError)
            } else {
                Ok::<u16, BrightnessError>(old(self).value)
            },
    {
        if self.fail_reads {
            Err(BrightnessError::HardwareError)
        } else {
            self.reads_answered.push(self.value);
            Ok(self.value)
        }
    }

    fn write_brightness(&mut self, value: u16) -> (r: Result<(), BrightnessError>)
        ensures
            final(self).value == if old(self).fail_writes {
                old(self).value
            } else {
                value
            },
            final(self).fail_reads == old(self).fail_reads,
            final(self).fail_writes == old(self).fail_writes,
            r == if old(self).fail_writes {
                Err::<(), BrightnessError>(BrightnessError::HardwareError)
            } else {
                Ok::<(), BrightnessError>(())
            },
    {
        self.writes_made.push(value);
        if self.fail_writes {
            Err(BrightnessError::HardwareError)
        } else {
            self.value = value;
            Ok(())
        }
    }
}

/// A brightness manager over fake displays with a hand-driven clock: the
/// drop-in stand-in for the hardware-backed backend wherever no monitor is
/// available, and the way tests exercise the daemon paths deterministically.
pub struct FakeBackend {
    manager: CachedManager<FakeDisplay>,
    now: u64,
}

impl FakeBackend {
    /// The cached manager behind this backend.
    pub closed spec fn manager(self) -> CachedManager<FakeDisplay> {
        self.manager
    }

    /// The backend's current clock reading, in milliseconds.
    pub closed spec fn clock(self) -> u64 {
        self.now
    }

    /// A backend over the given fake displays, with the clock at `now`.
    pub fn from_displays(displays: Vec<FakeDisplay>, now: u64) -> (r: Result<
        FakeBackend,
        BrightnessError,
    >)
        ensures
            displays@.len() == 0 <==> r == Err::<FakeBackend, BrightnessError>(
                BrightnessError::NoDisplaysFound,
            ),
            r matches Ok(b) ==> b.wf() && b.clock() == now && b.manager().ports().len()
                == displays@.len(),
    {
        match CachedManager::with_displays(displays, now) {
            Ok(manager) => Ok(FakeBackend { manager, now }),
            Err(e) => Err(e),
        }
    }

    /// Move the clock forward by `ms` milliseconds (saturating at the top of
    /// the range), leaving the manager untouched.
    pub fn advance(&mut self, ms: u64)
        ensures
            final(self).manager() == old(self).manager(),
            final(self).clock() == (if old(self).clock() + ms <= u64::MAX {
                (old(self).clock() + ms) as u64
            } else {
                u64::MAX
            }),
    {
        self.now = self.now.saturating_add(ms);
    }

    /// Read access to the manager, for inspection in tests.
    pub fn manager_ref(&self) -> (r: &CachedManager<FakeDisplay>)
        ensures
            *r == self.manager(),
    {
        &self.manager
    }
}

impl BrightnessManager for FakeBackend {
    open spec fn wf(&self) -> bool {
        self.manager().wf()
    }

    open spec fn current(&self) -> u16 {
        self.manager().cache().value
    }

    /// A simulated enumeration: one healthy display at brightness 50.
    fn new() -> (r: Result<Self, BrightnessError>) {
        let mut displays: Vec<FakeDisplay> = Vec::new();
        displays.push(FakeDisplay::new(50));
        match CachedManager::with_displays(displays, 0) {
            Ok(manager) => Ok(FakeBackend { manager, now: 0 }),
            Err(e) => Err(e),
        }
    }

    fn get_brightness(&mut self) -> (r: Result<u16, BrightnessError>)
        ensures
            final(self).clock() == old(self).clock(),
            !old(self).manager().cache().read_due(old(self).clock()) ==> r == Ok::<
                u16,
                BrightnessError,
            >(old(self).manager().cache().value) && *final(self) == *old(self),
    {
        let now = self.now;
        self.manager.get_brightness_at(now)
    }

    fn set_brightness(&mut self, value: u16) -> (r: Result<u16, BrightnessError>)
        ensures
            final(self).clock() == old(self).clock(),
            !old(self).manager().cache().write_due(old(self).clock()) ==> *final(self) == *old(
                self,
            ),
    {
        let now = self.now;
        self.manager.set_brightness_at(now, value)
    }

    fn adjust_brightness(&mut self, step: i16) -> (r: Result<u16, BrightnessError>)
        ensures
            final(self).clock() == old(self).clock(),
            !old(self).manager().cache().read_due(old(self).clock()) ==> r == set_reply(
                step_target(old(self).manager().cache().value, step),
            ),
            !old(self).manager().cache().read_due(old(self).clock()) && !old(
                self,
            ).manager().cache().write_due(old(self).clock()) ==> *final(self) == *old(self),
    {
        let now = self.now;
        self.manager.adjust_brightness_at(now, step)
    }
}

} // verus!
