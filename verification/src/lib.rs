//! Fast DDC/CI brightness control behind a caching manager.
//!
//! Monitor brightness (VCP feature 0x10) is slow to read and write over
//! DDC/CI, so this library keeps the last known value in a cache guarded by
//! two cooldown windows, one for reads and one for writes, and only touches
//! the hardware when a window has expired.  A small line protocol lets a
//! daemon expose the manager over a local socket.
//!
//! The monitor transport is the `DisplayPort` capability: the one shipped
//! implementation speaks DDC/CI through the ddc-hi crate (`DdcDisplay`), and
//! `FakeDisplay` stands in for it in tests.  Another transport — say one
//! backed by libddcutil, whose bindings need that system library at build
//! time and are therefore not provided here — would slot in as a further
//! `DisplayPort` implementation under the same verified manager.

mod cache;
mod daemon;
mod ddchi;
mod error;
mod fake;
mod laws;
mod manager;
mod port;
mod protocol;

pub use cache::CacheState;
pub use cache::READ_COOLDOWN_MS;
pub use cache::WRITE_COOLDOWN_MS;
pub use cache::apply_step;
pub use cache::clamp_brightness;
pub use cache::clamp_spec;
pub use cache::step_target;
pub use ddchi::DdcDisplay;
pub use ddchi::DdcHiBackend;
pub use daemon::Reply;
pub use daemon::down_step;
pub use daemon::down_step_of;
pub use daemon::handle_line;
pub use daemon::startup_gate;
pub use daemon::up_step;
pub use daemon::up_step_of;
pub use error::BrightnessError;
pub use error::error_text;
pub use fake::FakeBackend;
pub use fake::FakeDisplay;
pub use laws::lemma_adjust_stays_in_range;
pub use laws::lemma_get_pair_within_cooldown;
pub use laws::lemma_request_round_trip;
pub use laws::lemma_set_pair_within_cooldown;
pub use laws::lemma_set_reply_is_min;
pub use laws::lemma_transitions_preserve_wf;
pub use manager::BrightnessManager;
pub use manager::CachedManager;
pub use manager::set_reply;
pub use port::DisplayPort;
pub use protocol::Command;
pub use protocol::DEFAULT_SET;
pub use protocol::DEFAULT_STEP;
pub use protocol::dec_spec;
pub use protocol::encode_request;
pub use protocol::err_payload;
pub use protocol::format_result;
pub use protocol::ok_payload;
pub use protocol::parse_command;
pub use protocol::parse_spec;
pub use protocol::reply_text;
pub use protocol::request_text;
pub use protocol::u16_to_string;
