use vstd::prelude::*;

use crate::error::BrightnessError;

verus! {

/// One physical monitor's control channel: a blocking read and a blocking
/// write of the brightness feature.
///
/// The trait promises nothing about the values a real monitor returns — a
/// hardware transaction may fail or answer anything — but it does account for
/// the transactions in two abstract logs: every write that was attempted, and
/// every value a read answered.  Over them the manager can state that a `set`
/// fanned out to every display and that a `get` reports what the display
/// said.  Tests substitute a deterministic fake for the real channel.
pub trait DisplayPort: Sized {
    /// The values handed to the display so far, in order, whether or not the
    /// display accepted them.
    spec fn writes(&self) -> Seq<u16>;

    /// The values the display has answered to read transactions, in order.
    spec fn reads(&self) -> Seq<u16>;

    /// Read the current brightness from the display.
    fn read_brightness(&mut self) -> (r: Result<u16, BrightnessError>)
        ensures
            final(self).writes() == old(self).writes(),
            match r {
                Ok(v) => final(self).reads() == old(self).reads().push(v),
                Err(e) => final(self).reads() == old(self).reads() && e
                    == BrightnessError::HardwareError,
            },
    ;

    /// Write a brightness value to the display.
    fn write_brightness(&mut self, value: u16) -> (r: Result<(), BrightnessError>)
        ensures
            final(self).writes() == old(self).writes().push(value),
            final(self).reads() == old(self).reads(),
            r matches Err(e) ==> e == BrightnessError::HardwareError,
    ;
}

} // verus!
