use vstd::prelude::*;

use crate::cache::CacheState;
use crate::cache::READ_COOLDOWN_MS;
use crate::cache::WRITE_COOLDOWN_MS;
use crate::cache::clamp_spec;
use crate::cache::step_target;
use crate::error::BrightnessError;
use crate::manager::set_reply;
use crate::protocol::Command;
use crate::protocol::all_digits;
use crate::protocol::dec_spec;
use crate::protocol::digit_char;
use crate::protocol::digit_val;
use crate::protocol::digits_val;
use crate::protocol::is_digit;
use crate::protocol::parse_spec;
use crate::protocol::request_text;

verus! {

/// Law: whatever value a `set` requests, the echoed reply is the requested
/// value clamped to 100 — `min(v, 100)` — whether or not the write itself was
/// suppressed by the cooldown (`set_brightness_at` replies `set_reply(v)`
/// unconditionally).
pub proof fn lemma_set_reply_is_min(v: u16)
    ensures
        set_reply(v) == Ok::<u16, BrightnessError>(
            if v as int <= 100 {
                v
            } else {
                100u16
            },
        ),
        clamp_spec(v) <= 100,
{
}

/// Law: however `adjust` moves the value — any starting point, any step
/// magnitude or sign — the brightness it hands to `set` stays a `u16` (never
/// below zero) and the reported value never exceeds 100.  Together with the
/// well-formedness every operation preserves, a whole sequence of `adjust`
/// calls keeps the reported value inside 0..=100.
pub proof fn lemma_adjust_stays_in_range(current: u16, step: i16)
    ensures
        0 <= step_target(current, step) <= u16::MAX,
        0 <= clamp_spec(step_target(current, step)) <= 100,
{
}

/// Law: the cache transitions of a real read and a real write both preserve
/// well-formedness when fed a clamped value, so every sequence of operations
/// keeps the cached value a percentage.
pub proof fn lemma_transitions_preserve_wf(st: CacheState, now: u64, observed: u16, requested: u16)
    requires
        st.wf(),
    ensures
        st.after_read(now, clamp_spec(observed)).wf(),
        st.after_write(now, clamp_spec(requested)).wf(),
{
}

/// Law: two `get` calls that fall inside one read cooldown window observe no
/// hardware transaction and return the identical value.
///
/// By `get_brightness_at`'s contract, a call with `!read_due` replies
/// `Ok(st.value)` and leaves the whole manager — cache and display ports —
/// exactly as it was.  This lemma adds that the second call of such a pair is
/// answered from the very same window, so it replies with the identical value.
pub proof fn lemma_get_pair_within_cooldown(st: CacheState, now1: u64, now2: u64)
    requires
        st.wf(),
        now1 < st.last_read_at + READ_COOLDOWN_MS,
        now2 < st.last_read_at + READ_COOLDOWN_MS,
    ensures
        !st.read_due(now1),
        !st.read_due(now2),
{
}

/// Law: a `set` issued inside the write cooldown window opened by a prior
/// `set` is suppressed, yet still echoes the newly requested clamped value.
///
/// The first call (its write due) moves the cache to
/// `after_write(now1, clamp_spec(v1))`; this lemma says a second call inside
/// the fresh window finds `!write_due`, in which case `set_brightness_at`
/// changes nothing and still replies `set_reply(v2) == Ok(clamp_spec(v2))` —
/// the optimistic echo, never the old cached value.
pub proof fn lemma_set_pair_within_cooldown(st: CacheState, now1: u64, v1: u16, now2: u64, v2: u16)
    requires
        st.wf(),
        st.write_due(now1),
        now2 < now1 + WRITE_COOLDOWN_MS,
    ensures
        !st.after_write(now1, clamp_spec(v1)).write_due(now2),
        set_reply(v2) == Ok::<u16, BrightnessError>(clamp_spec(v2)),
{
}

proof fn lemma_dec_spec_digits(n: nat)
    ensures
        dec_spec(n).len() >= 1,
        all_digits(dec_spec(n)),
    decreases n,
{
    if n < 10 {
        assert(is_digit(dec_spec(n)[0]));
    } else {
        lemma_dec_spec_digits(n / 10);
        let prev = dec_spec(n / 10);
        let whole = dec_spec(n);
        assert forall|i: int| 0 <= i < whole.len() implies is_digit(whole[i]) by {
            if i < prev.len() {
                assert(whole[i] == prev[i]);
            } else {
                assert(whole[i] == digit_char(n % 10));
            }
        }
    }
}

proof fn lemma_dec_spec_value(n: nat)
    ensures
        digits_val(dec_spec(n)) == n,
    decreases n,
{
    if n < 10 {
        let s = dec_spec(n);
        assert(s.len() == 1);
        assert(s.last() == digit_char(n));
        assert(s.drop_last() =~= Seq::<char>::empty());
        assert(digits_val(s.drop_last()) == 0);
        assert(digit_val(digit_char(n)) == n);
    } else {
        lemma_dec_spec_value(n / 10);
        let s = dec_spec(n);
        assert(s.drop_last() =~= dec_spec(n / 10));
        assert(digit_val(digit_char(n % 10)) == n % 10);
        assert(digits_val(s) == digits_val(dec_spec(n / 10)) * 10 + digit_val(s.last()));
    }
}

/// Law: the request a client encodes is read back as the very command it
/// encoded, so the daemon performs exactly the operation the command line
/// asked for, and daemon-mediated and direct execution agree.
pub proof fn lemma_request_round_trip(cmd: Command)
    requires
        cmd != Command::Unknown,
    ensures
        parse_spec(request_text(cmd)) == cmd,
{
    reveal_strlit("get");
    reveal_strlit("stop");
    reveal_strlit("up ");
    reveal_strlit("down ");
    reveal_strlit("set ");
    match cmd {
        Command::Get => {
            let t = "get"@;
            assert(crate::protocol::trim_back(t) == t);
            assert(crate::protocol::trim_front(t) == t);
        },
        Command::Stop => {
            let t = "stop"@;
            assert(crate::protocol::trim_back(t) == t);
            assert(crate::protocol::trim_front(t) == t);
            assert(t != "get"@);
        },
        Command::Up(n) => {
            lemma_prefixed_number_round_trip("up "@, n);
            let t = "up "@ + dec_spec(n as nat);
            assert(t.subrange(0, 3) =~= "up "@);
            assert(t.skip(3) =~= dec_spec(n as nat));
        },
        Command::Down(n) => {
            lemma_prefixed_number_round_trip("down "@, n);
            let t = "down "@ + dec_spec(n as nat);
            assert(t.subrange(0, 5) =~= "down "@);
            assert(t.skip(5) =~= dec_spec(n as nat));
            if crate::protocol::starts_with(t, "up "@) {
                assert(t.subrange(0, 3)[0] == t[0]);
            }
        },
        Command::SetValue(v) => {
            lemma_prefixed_number_round_trip("set "@, v);
            let t = "set "@ + dec_spec(v as nat);
            assert(t.subrange(0, 4) =~= "set "@);
            assert(t.skip(4) =~= dec_spec(v as nat));
            if crate::protocol::starts_with(t, "up "@) {
                assert(t.subrange(0, 3)[0] == t[0]);
            }
            if crate::protocol::starts_with(t, "down "@) {
                assert(t.subrange(0, 5)[0] == t[0]);
            }
        },
        Command::Unknown => {
        },
    }
}

/// The shared part of the round trip for `up`, `down` and `set`: the encoded
/// line is already trimmed, and its numeric tail parses back to `n`.
proof fn lemma_prefixed_number_round_trip(prefix: Seq<char>, n: u16)
    requires
        prefix.len() >= 1,
        !crate::protocol::is_space(prefix[0]),
    ensures
        crate::protocol::trim_spec(prefix + dec_spec(n as nat)) == prefix + dec_spec(n as nat),
        crate::protocol::parse_u16_spec(dec_spec(n as nat), 5) == n,
        crate::protocol::parse_u16_spec(dec_spec(n as nat), 50) == n,
{
    lemma_dec_spec_digits(n as nat);
    lemma_dec_spec_value(n as nat);
    let d = dec_spec(n as nat);
    let t = prefix + d;
    assert(t.last() == d.last());
    assert(is_digit(d[d.len() - 1]));
    assert(!crate::protocol::is_space(t.last()));
    assert(crate::protocol::trim_back(t) == t);
    assert(t[0] == prefix[0]);
    assert(crate::protocol::trim_front(t) == t);
    assert(is_digit(d[0]));
    assert(d[0] != '+');
    assert(digits_val(d) <= u16::MAX);
}

} // verus!
