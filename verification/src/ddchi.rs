use vstd::prelude::*;

use ddc_hi::Ddc;

use crate::error::BrightnessError;
use crate::manager::BrightnessManager;
use crate::manager::CachedManager;
use crate::port::DisplayPort;

verus! {

/// The VCP feature code of display brightness.
pub const VCP_BRIGHTNESS: u8 = 0x10;

#[verifier::external_type_specification]
#[verifier::external_body]
pub struct ExDisplay(ddc_hi::Display);

#[verifier::external_type_specification]
#[verifier::external_body]
pub struct ExInstant(std::time::Instant);

/// Relies on std::time::Instant::now: a reading of the monotonic clock, taken
/// once so that later readings can be turned into elapsed milliseconds.
#[verifier::external_body]
fn clock_start() -> (r: std::time::Instant) {
    std::time::Instant::now()
}

/// Relies on std::time::Instant::elapsed: the time since `epoch`, converted
/// to whole milliseconds and capped at the top of the range.  Nothing is
/// promised of a clock reading.
#[verifier::external_body]
fn millis_since(epoch: &std::time::Instant) -> (r: u64) {
    u64::try_from(epoch.elapsed().as_millis()).unwrap_or(u64::MAX)
}

/// Relies on ddc_hi::Display::enumerate: detect the DDC/CI-capable displays
/// on the machine.  Nothing is promised of the machine's display list.
///
/// What it can find depends on ddc-hi's optional platform backend features
/// (ddc-i2c on Linux, which needs libudev at build time).  This build
/// disables them — the build host lacks libudev's development files — so
/// here the call compiles to an empty enumeration and construction ends in
/// `NoDisplaysFound`; a build with the platform backend enabled detects real
/// displays.
#[verifier::external_body]
fn enumerate_displays() -> (r: Vec<ddc_hi::Display>) {
    ddc_hi::Display::enumerate()
}

/// Relies on ddc_hi::Ddc::get_vcp_feature on the display's handle: one
/// blocking DDC/CI read of the brightness feature, whose two value bytes
/// `VcpValue::value` combines into a u16.  A failed transaction is reported
/// as a hardware error.
#[verifier::external_body]
fn read_vcp_brightness(d: &mut ddc_hi::Display) -> (r: Result<u16, BrightnessError>)
    ensures
        r matches Err(e) ==> e == BrightnessError::HardwareError,
{
    match d.handle.get_vcp_feature(VCP_BRIGHTNESS) {
        Ok(v) => Ok(v.value()),
        Err(_) => Err(BrightnessError::HardwareError),
    }
}

/// Relies on ddc_hi::Ddc::set_vcp_feature on the display's handle: one
/// blocking DDC/CI write of the brightness feature.  A failed transaction is
/// reported as a hardware error.
#[verifier::external_body]
fn write_vcp_brightness(d: &mut ddc_hi::Display, value: u16) -> (r: Result<(), BrightnessError>)
    ensures
        r matches Err(e) ==> e == BrightnessError::HardwareError,
{
    match d.handle.set_vcp_feature(VCP_BRIGHTNESS, value) {
        Ok(()) => Ok(()),
        Err(_) => Err(BrightnessError::HardwareError),
    }
}

/// One physical monitor, as a display port: the DDC/CI control channel plus
/// the (ghost) logs of the writes handed to it and the values it answered.
pub struct DdcDisplay {
    inner: ddc_hi::Display,
    handed: Ghost<Seq<u16>>,
    answered: Ghost<Seq<u16>>,
}

impl DisplayPort for DdcDisplay {
    closed spec fn writes(&self) -> Seq<u16> {
        self.handed@
    }

    closed spec fn reads(&self) -> Seq<u16> {
        self.answered@
    }

    fn read_brightness(&mut self) -> (r: Result<u16, BrightnessError>) {
        match read_vcp_brightness(&mut self.inner) {
            Ok(v) => {
                self.answered = Ghost(self.answered@.push(v));
                Ok(v)
            },
            Err(e) => Err(e),
        }
    }

    fn write_brightness(&mut self, value: u16) -> (r: Result<(), BrightnessError>) {
        let r = write_vcp_brightness(&mut self.inner, value);
        self.handed = Ghost(self.handed@.push(value));
        r
    }
}

/// The hardware-backed brightness manager: every DDC/CI-capable display of
/// the machine behind the cached cooldown policy, timed by the process's
/// monotonic clock.
pub struct DdcHiBackend {
    manager: CachedManager<DdcDisplay>,
    epoch: std::time::Instant,
}

impl DdcHiBackend {
    /// The cached manager behind this backend.
    pub closed spec fn manager(self) -> CachedManager<DdcDisplay> {
        self.manager
    }

    /// How many displays the backend drives.
    pub fn display_count(&self) -> (r: usize)
        ensures
            r == self.manager().ports().len(),
    {
        self.manager.display_count()
    }

    /// Decide at run time whether the backend is well-formed — what `new`
    /// guarantees and every operation preserves — so that unverified callers
    /// can check it before relying on it.
    pub fn usable(&self) -> (r: bool)
        ensures
            r == self.wf(),
    {
        self.manager.display_count() >= 1 && self.manager.cached_value() <= 100
    }
}

impl BrightnessManager for DdcHiBackend {
    open spec fn wf(&self) -> bool {
        self.manager().wf()
    }

    open spec fn current(&self) -> u16 {
        self.manager().cache().value
    }

    /// Enumerate the displays; an empty enumeration is fatal, and the first
    /// display's brightness seeds the cache.
    fn new() -> (r: Result<Self, BrightnessError>) {
        let epoch = clock_start();
        let mut raw = enumerate_displays();
        let mut ports: Vec<DdcDisplay> = Vec::new();
        while raw.len() > 0
            decreases raw.len(),
        {
            let d = raw.remove(0);
            ports.push(DdcDisplay {
                inner: d,
                handed: Ghost(Seq::empty()),
                answered: Ghost(Seq::empty()),
            });
        }
        let now = millis_since(&epoch);
        match CachedManager::with_displays(ports, now) {
            Ok(manager) => Ok(DdcHiBackend { manager, epoch }),
            Err(e) => Err(e),
        }
    }

    fn get_brightness(&mut self) -> (r: Result<u16, BrightnessError>) {
        let now = millis_since(&self.epoch);
        self.manager.get_brightness_at(now)
    }

    fn set_brightness(&mut self, value: u16) -> (r: Result<u16, BrightnessError>) {
        let now = millis_since(&self.epoch);
        self.manager.set_brightness_at(now, value)
    }

    fn adjust_brightness(&mut self, step: i16) -> (r: Result<u16, BrightnessError>) {
        let now = millis_since(&self.epoch);
        self.manager.adjust_brightness_at(now, step)
    }
}

} // verus!
