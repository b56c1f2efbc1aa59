use vstd::prelude::*;

use crate::cache::clamp_spec;
use crate::cache::step_target;
use crate::error::BrightnessError;
use crate::manager::BrightnessManager;
use crate::protocol::Command;
use crate::protocol::format_result;
use crate::protocol::parse_command;
use crate::protocol::parse_spec;
use crate::protocol::reply_text;

verus! {

/// What a connection worker does with the reply line: send it and close the
/// connection, or send it and shut the whole daemon down.
pub enum Reply {
    Respond(String),
    Shutdown(String),
}

/// The daemon's startup gate.  The socket path is the liveness token of a
/// running daemon: when it is already present, a second instance refuses to
/// start, before anything is bound.  A stale token from an unclean shutdown
/// must be removed by hand.
pub fn startup_gate(socket_exists: bool) -> (r: Result<(), BrightnessError>)
    ensures
        r == if socket_exists {
            Err::<(), BrightnessError>(BrightnessError::AlreadyRunning)
        } else {
            Ok::<(), BrightnessError>(())
        },
{
    if socket_exists {
        Err(BrightnessError::AlreadyRunning)
    } else {
        Ok(())
    }
}

/// The step `up n` hands to `adjust_brightness`: `n`, saturated into the
/// signed step range.  Any step magnitude beyond that range already drives
/// the 0..=100 scale to an endpoint, so the cap changes no outcome.
pub open spec fn up_step(n: u16) -> i16 {
    if n > i16::MAX as u16 {
        i16::MAX
    } else {
        n as i16
    }
}

/// The step `down n` hands to `adjust_brightness`: `-n`, saturated into the
/// signed step range.
pub open spec fn down_step(n: u16) -> i16 {
    if n > 32768 {
        i16::MIN
    } else {
        (0 - n as int) as i16
    }
}

/// Compute the saturated step of `up n`.
pub fn up_step_of(n: u16) -> (r: i16)
    ensures
        r == up_step(n),
{
    if n > 32767 {
        i16::MAX
    } else {
        n as i16
    }
}

/// Compute the saturated step of `down n`.
pub fn down_step_of(n: u16) -> (r: i16)
    ensures
        r == down_step(n),
{
    if n >= 32768 {
        i16::MIN
    } else {
        -(n as i16)
    }
}

/// Serve one connection: parse the request line, run the matching manager
/// operation, and hand back the one reply line.  An unknown command touches
/// neither the manager nor the daemon; `stop` acknowledges and asks the
/// caller to shut down.
///
/// The contract ties each reply to the operation that produced it: a `get`
/// reply renders the value the manager now holds; `up n`/`down n` reach
/// `adjust_brightness` with exactly the saturated step `up_step(n)` /
/// `down_step(n)`, so the rendered value is a saturated move from some
/// percentage; a `set v` reply renders the clamped echo.
pub fn handle_line<M: BrightnessManager>(mgr: &mut M, line: &str) -> (r: Reply)
    requires
        old(mgr).wf(),
    ensures
        final(mgr).wf(),
        match parse_spec(line@) {
            Command::Get => r matches Reply::Respond(s) && exists|res: Result<u16, BrightnessError>|
                s@ == #[trigger] reply_text(res) && (res matches Ok(v) ==> v <= 100 && v
                    == final(mgr).current()) && (res matches Err(e) ==> e
                    == BrightnessError::HardwareError && final(mgr).current() == old(
                    mgr,
                ).current()),
            Command::Up(n) => r matches Reply::Respond(s) && exists|res: Result<u16, BrightnessError>|
                s@ == #[trigger] reply_text(res) && (res matches Ok(v) ==> exists|cur: u16|
                    cur <= 100 && v == clamp_spec(step_target(cur, up_step(n)))) && (res matches Err(e)
                    ==> e == BrightnessError::HardwareError && final(mgr).current() == old(
                    mgr,
                ).current()),
            Command::Down(n) => r matches Reply::Respond(s) && exists|res: Result<u16, BrightnessError>|
                s@ == #[trigger] reply_text(res) && (res matches Ok(v) ==> exists|cur: u16|
                    cur <= 100 && v == clamp_spec(step_target(cur, down_step(n)))) && (res matches Err(e)
                    ==> e == BrightnessError::HardwareError && final(mgr).current() == old(
                    mgr,
                ).current()),
            Command::SetValue(v) => r matches Reply::Respond(s) && exists|res: Result<u16, BrightnessError>|
                s@ == #[trigger] reply_text(res) && res == Ok::<u16, BrightnessError>(
                    clamp_spec(v),
                ),
            Command::Stop => r matches Reply::Shutdown(s) && s@ == "OK stopping"@ && *final(mgr)
                == *old(mgr),
            Command::Unknown => r matches Reply::Respond(s) && s@ == "ERROR unknown command"@
                && *final(mgr) == *old(mgr),
        },
{
    let cmd = parse_command(line);
    match cmd {
        Command::Get => {
            let res = mgr.get_brightness();
            Reply::Respond(format_result(&res))
        },
        Command::Up(n) => {
            let res = mgr.adjust_brightness(up_step_of(n));
            Reply::Respond(format_result(&res))
        },
        Command::Down(n) => {
            let res = mgr.adjust_brightness(down_step_of(n));
            Reply::Respond(format_result(&res))
        },
        Command::SetValue(v) => {
            let res = mgr.set_brightness(v);
            Reply::Respond(format_result(&res))
        },
        Command::Stop => Reply::Shutdown(String::from_str("OK stopping")),
        Command::Unknown => Reply::Respond(String::from_str("ERROR unknown command")),
    }
}

} // verus!
