use vstd::prelude::*;

use crate::error::BrightnessError;
use crate::error::error_text;

verus! {

/// One client command, parsed from one line of the socket protocol.
#[derive(Clone, Copy, Debug, PartialEq, Eq, Structural)]
pub enum Command {
    Get,
    Up(u16),
    Down(u16),
    SetValue(u16),
    Stop,
    Unknown,
}

/// Default step of `up`/`down` when the argument is missing or malformed.
pub const DEFAULT_STEP: u16 = 5;

/// Default value of `set` when the argument is missing or malformed.
pub const DEFAULT_SET: u16 = 50;

// ---------------------------------------------------------------------------
// Trimming
// ---------------------------------------------------------------------------

/// The whitespace the protocol strips from the edges of a request line: the
/// characters with the Unicode `White_Space` property.
pub open spec fn is_space(c: char) -> bool {
    ||| c == '\u{0009}'
    ||| c == '\u{000A}'
    ||| c == '\u{000B}'
    ||| c == '\u{000C}'
    ||| c == '\u{000D}'
    ||| c == ' '
    ||| c == '\u{0085}'
    ||| c == '\u{00A0}'
    ||| c == '\u{1680}'
    ||| ('\u{2000}' <= c && c <= '\u{200A}')
    ||| c == '\u{2028}'
    ||| c == '\u{2029}'
    ||| c == '\u{202F}'
    ||| c == '\u{205F}'
    ||| c == '\u{3000}'
}

/// `s` without its leading whitespace.
pub open spec fn trim_front(s: Seq<char>) -> Seq<char>
    decreases s.len(),
{
    if s.len() > 0 && is_space(s[0]) {
        trim_front(s.drop_first())
    } else {
        s
    }
}

/// `s` without its trailing whitespace.
pub open spec fn trim_back(s: Seq<char>) -> Seq<char>
    decreases s.len(),
{
    if s.len() > 0 && is_space(s.last()) {
        trim_back(s.drop_last())
    } else {
        s
    }
}

/// `s` without leading and trailing whitespace.
pub open spec fn trim_spec(s: Seq<char>) -> Seq<char> {
    trim_front(trim_back(s))
}

proof fn lemma_trim_back_range(s: Seq<char>, end: int)
    requires
        0 <= end <= s.len(),
        forall|i: int| end <= i < s.len() ==> is_space(s[i]),
        end > 0 ==> !is_space(s[end - 1]),
    ensures
        trim_back(s) == s.subrange(0, end),
    decreases s.len(),
{
    if end == s.len() {
        if s.len() > 0 {
            assert(!is_space(s.last()));
        }
        assert(trim_back(s) =~= s.subrange(0, end));
    } else {
        assert(is_space(s.last()));
        assert(s.drop_last() =~= s.subrange(0, s.len() - 1));
        lemma_trim_back_range(s.drop_last(), end);
        assert(s.drop_last().subrange(0, end) =~= s.subrange(0, end));
    }
}

proof fn lemma_trim_front_range(s: Seq<char>, start: int)
    requires
        0 <= start <= s.len(),
        forall|i: int| 0 <= i < start ==> is_space(s[i]),
        start < s.len() ==> !is_space(s[start]),
    ensures
        trim_front(s) == s.subrange(start, s.len() as int),
    decreases start,
{
    if start == 0 {
        assert(trim_front(s) =~= s.subrange(0, s.len() as int));
    } else {
        assert(is_space(s[0]));
        assert(s.drop_first() =~= s.subrange(1, s.len() as int));
        lemma_trim_front_range(s.drop_first(), start - 1);
        assert(s.drop_first().subrange(start - 1, s.drop_first().len() as int) =~= s.subrange(
            start,
            s.len() as int,
        ));
    }
}

// ---------------------------------------------------------------------------
// Numbers
// ---------------------------------------------------------------------------

/// An ASCII decimal digit.
pub open spec fn is_digit(c: char) -> bool {
    '0' <= c && c <= '9'
}

/// The numeric value of a digit character.
pub open spec fn digit_val(c: char) -> nat {
    ((c as int) - ('0' as int)) as nat
}

/// Every character of `s` is a digit.
pub open spec fn all_digits(s: Seq<char>) -> bool {
    forall|i: int| 0 <= i < s.len() ==> is_digit(s[i])
}

/// The value of a digit string, most significant digit first.
pub open spec fn digits_val(s: Seq<char>) -> nat
    decreases s.len(),
{
    if s.len() == 0 {
        0
    } else {
        digits_val(s.drop_last()) * 10 + digit_val(s.last())
    }
}

/// How the protocol reads a numeric argument: an optional `+` sign, then
/// decimal digits; anything else, an empty argument, or a value that does not
/// fit in the type falls back to `default`.
pub open spec fn parse_u16_spec(s: Seq<char>, default: u16) -> u16 {
    let body = if s.len() > 0 && s[0] == '+' {
        s.drop_first()
    } else {
        s
    };
    if body.len() > 0 && all_digits(body) && digits_val(body) <= u16::MAX {
        digits_val(body) as u16
    } else {
        default
    }
}

fn is_space_char(c: char) -> (b: bool)
    ensures
        b == is_space(c),
{
    c == '\u{0009}' || c == '\u{000A}' || c == '\u{000B}' || c == '\u{000C}' || c == '\u{000D}'
        || c == ' ' || c == '\u{0085}' || c == '\u{00A0}' || c == '\u{1680}' || ('\u{2000}' <= c
        && c <= '\u{200A}') || c == '\u{2028}' || c == '\u{2029}' || c == '\u{202F}' || c
        == '\u{205F}' || c == '\u{3000}'
}

fn is_digit_char(c: char) -> (b: bool)
    ensures
        b == is_digit(c),
{
    '0' <= c && c <= '9'
}

/// Parse the numeric argument in `v[start..end]`, falling back to `default`.
fn parse_u16_in(v: &Vec<char>, start: usize, end: usize, default: u16) -> (r: u16)
    requires
        start <= end <= v@.len(),
    ensures
        r == parse_u16_spec(v@.subrange(start as int, end as int), default),
{
    let ghost s = v@.subrange(start as int, end as int);
    let mut i = start;
    if i < end && v[i] == '+' {
        i = i + 1;
    }
    let ghost body = if s.len() > 0 && s[0] == '+' {
        s.drop_first()
    } else {
        s
    };
    proof {
        assert(body =~= v@.subrange(i as int, end as int));
    }
    if i == end {
        return default;
    }
    let mut acc: u32 = 0;
    let mut j = i;
    while j < end
        invariant
            start <= i <= j <= end <= v@.len(),
            s == v@.subrange(start as int, end as int),
            body == (if s.len() > 0 && s[0] == '+' {
                s.drop_first()
            } else {
                s
            }),
            body == v@.subrange(i as int, end as int),
            all_digits(v@.subrange(i as int, j as int)),
            digits_val(v@.subrange(i as int, j as int)) <= u16::MAX ==> acc == digits_val(
                v@.subrange(i as int, j as int),
            ),
            digits_val(v@.subrange(i as int, j as int)) > u16::MAX ==> acc > u16::MAX,
            acc <= 655359,
        decreases end - j,
    {
        let c = v[j];
        if !is_digit_char(c) {
            proof {
                assert(body[j - i] == v@[j as int]);
                assert(!is_digit(body[j - i]));
                assert(!all_digits(body));
                assert(parse_u16_spec(s, default) == default);
            }
            return default;
        }
        let d: u32 = (c as u32) - ('0' as u32);
        proof {
            let pre = v@.subrange(i as int, j as int);
            let ext = v@.subrange(i as int, j + 1 as int);
            assert(ext.drop_last() =~= pre);
            assert(ext.last() == v@[j as int]);
            assert(d == digit_val(c));
            if digits_val(pre) > u16::MAX {
                assert(digits_val(ext) == digits_val(pre) * 10 + digit_val(ext.last()));
                assert(digits_val(pre) * 10 >= digits_val(pre));
            }
        }
        if acc <= 65535 {
            acc = acc * 10 + d;
        }
        j = j + 1;
    }
    assert(v@.subrange(i as int, j as int) == body);
    if acc <= 65535 {
        acc as u16
    } else {
        default
    }
}

// ---------------------------------------------------------------------------
// Commands
// ---------------------------------------------------------------------------

/// `s` begins with `p`.
pub open spec fn starts_with(s: Seq<char>, p: Seq<char>) -> bool {
    s.len() >= p.len() && s.subrange(0, p.len() as int) == p
}

/// How one request line is read: trim it, then match `get`, `stop`, or a
/// prefixed numeric command; everything else is unknown.  The original
/// prefixes demand the space, so a bare `up` is unknown, not a default step.
pub open spec fn parse_spec(line: Seq<char>) -> Command {
    let t = trim_spec(line);
    if t == "get"@ {
        Command::Get
    } else if t == "stop"@ {
        Command::Stop
    } else if starts_with(t, "up "@) {
        Command::Up(parse_u16_spec(t.skip(3), DEFAULT_STEP))
    } else if starts_with(t, "down "@) {
        Command::Down(parse_u16_spec(t.skip(5), DEFAULT_STEP))
    } else if starts_with(t, "set "@) {
        Command::SetValue(parse_u16_spec(t.skip(4), DEFAULT_SET))
    } else {
        Command::Unknown
    }
}

/// The characters of `s`, as a vector.
fn chars_of(s: &str) -> (r: Vec<char>)
    ensures
        r@ == s@,
{
    let n = s.unicode_len();
    let mut r: Vec<char> = Vec::new();
    let mut i: usize = 0;
    while i < n
        invariant
            i <= n,
            n == s@.len(),
            r@ == s@.subrange(0, i as int),
        decreases n - i,
    {
        r.push(s.get_char(i));
        proof {
            assert(r@ =~= s@.subrange(0, i + 1 as int));
        }
        i = i + 1;
    }
    proof {
        assert(r@ =~= s@);
    }
    r
}

/// Does `v[start..end]` spell exactly the literal `lit`?
fn seg_eq_lit(v: &Vec<char>, start: usize, end: usize, lit: &str) -> (b: bool)
    requires
        start <= end <= v@.len(),
    ensures
        b == (v@.subrange(start as int, end as int) == lit@),
{
    let n = lit.unicode_len();
    if end - start != n {
        proof {
            assert(v@.subrange(start as int, end as int).len() != lit@.len());
        }
        return false;
    }
    let mut i: usize = 0;
    while i < n
        invariant
            i <= n,
            n == lit@.len(),
            start + n == end,
            end <= v@.len(),
            forall|k: int| 0 <= k < i ==> v@[start + k] == lit@[k],
        decreases n - i,
    {
        if v[start + i] != lit.get_char(i) {
            proof {
                let seg = v@.subrange(start as int, end as int);
                assert(seg[i as int] != lit@[i as int]);
            }
            return false;
        }
        i = i + 1;
    }
    proof {
        assert(v@.subrange(start as int, end as int) =~= lit@);
    }
    true
}

/// Parse one request line into a command.
pub fn parse_command(line: &str) -> (c: Command)
    ensures
        c == parse_spec(line@),
{
    let v = chars_of(line);
    let len = v.len();

    let mut end = len;
    while end > 0 && is_space_char(v[end - 1])
        invariant
            end <= len,
            len == v@.len(),
            forall|k: int| end <= k < len ==> is_space(v@[k]),
        decreases end,
    {
        end = end - 1;
    }
    let mut start: usize = 0;
    while start < end && is_space_char(v[start])
        invariant
            start <= end <= len,
            len == v@.len(),
            forall|k: int| 0 <= k < start ==> is_space(v@[k]),
        decreases end - start,
    {
        start = start + 1;
    }
    let ghost t = trim_spec(line@);
    proof {
        lemma_trim_back_range(v@, end as int);
        let back = v@.subrange(0, end as int);
        lemma_trim_front_range(back, start as int);
        assert(back.subrange(start as int, back.len() as int) =~= v@.subrange(
            start as int,
            end as int,
        ));
        assert(t == v@.subrange(start as int, end as int));
    }

    // Work on a copy of the trimmed segment, so that every comparison below
    // speaks directly about `trim_spec(line@)`.
    let mut tv: Vec<char> = Vec::new();
    let mut k = start;
    while k < end
        invariant
            start <= k <= end <= v@.len(),
            tv@ == v@.subrange(start as int, k as int),
        decreases end - k,
    {
        tv.push(v[k]);
        proof {
            assert(tv@ =~= v@.subrange(start as int, k + 1 as int));
        }
        k = k + 1;
    }
    proof {
        assert(tv@ == t);
        reveal_strlit("up ");
        reveal_strlit("down ");
        reveal_strlit("set ");
    }
    let tlen = tv.len();
    proof {
        assert(tv@.subrange(0, tlen as int) =~= tv@);
    }

    if seg_eq_lit(&tv, 0, tlen, "get") {
        Command::Get
    } else if seg_eq_lit(&tv, 0, tlen, "stop") {
        Command::Stop
    } else if tlen >= 3 && seg_eq_lit(&tv, 0, 3, "up ") {
        proof {
            assert(t.subrange(0, 3) =~= tv@.subrange(0, 3));
            assert(t.skip(3) =~= tv@.subrange(3, tlen as int));
        }
        Command::Up(parse_u16_in(&tv, 3, tlen, DEFAULT_STEP))
    } else if tlen >= 5 && seg_eq_lit(&tv, 0, 5, "down ") {
        proof {
            assert(!starts_with(t, "up "@) || t.subrange(0, 3) == tv@.subrange(0, 3));
            assert(t.skip(5) =~= tv@.subrange(5, tlen as int));
        }
        Command::Down(parse_u16_in(&tv, 5, tlen, DEFAULT_STEP))
    } else if tlen >= 4 && seg_eq_lit(&tv, 0, 4, "set ") {
        proof {
            assert(!starts_with(t, "up "@) || t.subrange(0, 3) == tv@.subrange(0, 3));
            assert(!starts_with(t, "down "@) || t.subrange(0, 5) == tv@.subrange(0, 5));
            assert(t.skip(4) =~= tv@.subrange(4, tlen as int));
        }
        Command::SetValue(parse_u16_in(&tv, 4, tlen, DEFAULT_SET))
    } else {
        proof {
            assert(!starts_with(t, "up "@) || t.subrange(0, 3) == tv@.subrange(0, 3));
            assert(!starts_with(t, "down "@) || t.subrange(0, 5) == tv@.subrange(0, 5));
            assert(!starts_with(t, "set "@) || t.subrange(0, 4) == tv@.subrange(0, 4));
        }
        Command::Unknown
    }
}

// ---------------------------------------------------------------------------
// Rendering
// ---------------------------------------------------------------------------

/// The digit character of a value below ten.
pub open spec fn digit_char(d: nat) -> char {
    if d == 0 {
        '0'
    } else if d == 1 {
        '1'
    } else if d == 2 {
        '2'
    } else if d == 3 {
        '3'
    } else if d == 4 {
        '4'
    } else if d == 5 {
        '5'
    } else if d == 6 {
        '6'
    } else if d == 7 {
        '7'
    } else if d == 8 {
        '8'
    } else {
        '9'
    }
}

/// The decimal rendering of `n`, most significant digit first, no sign and no
/// leading zeros (`0` renders as `"0"`).
pub open spec fn dec_spec(n: nat) -> Seq<char>
    decreases n,
{
    if n < 10 {
        seq![digit_char(n)]
    } else {
        dec_spec(n / 10).push(digit_char(n % 10))
    }
}

fn digit_str(d: u16) -> (r: &'static str)
    requires
        d <= 9,
    ensures
        r@ == seq![digit_char(d as nat)],
{
    if d == 0 {
        let r = "0";
        proof {
            reveal_strlit("0");
            assert(r@ =~= seq![digit_char(d as nat)]);
        }
        r
    } else if d == 1 {
        let r = "1";
        proof {
            reveal_strlit("1");
            assert(r@ =~= seq![digit_char(d as nat)]);
        }
        r
    } else if d == 2 {
        let r = "2";
        proof {
            reveal_strlit("2");
            assert(r@ =~= seq![digit_char(d as nat)]);
        }
        r
    } else if d == 3 {
        let r = "3";
        proof {
            reveal_strlit("3");
            assert(r@ =~= seq![digit_char(d as nat)]);
        }
        r
    } else if d == 4 {
        let r = "4";
        proof {
            reveal_strlit("4");
            assert(r@ =~= seq![digit_char(d as nat)]);
        }
        r
    } else if d == 5 {
        let r = "5";
        proof {
            reveal_strlit("5");
            assert(r@ =~= seq![digit_char(d as nat)]);
        }
        r
    } else if d == 6 {
        let r = "6";
        proof {
            reveal_strlit("6");
            assert(r@ =~= seq![digit_char(d as nat)]);
        }
        r
    } else if d == 7 {
        let r = "7";
        proof {
            reveal_strlit("7");
            assert(r@ =~= seq![digit_char(d as nat)]);
        }
        r
    } else if d == 8 {
        let r = "8";
        proof {
            reveal_strlit("8");
            assert(r@ =~= seq![digit_char(d as nat)]);
        }
        r
    } else {
        let r = "9";
        proof {
            reveal_strlit("9");
            assert(r@ =~= seq![digit_char(d as nat)]);
        }
        r
    }
}

/// Append the decimal rendering of `v` to `out`.
fn append_decimal(out: &mut String, v: u16)
    ensures
        final(out)@ == old(out)@ + dec_spec(v as nat),
    decreases v,
{
    if v >= 10 {
        append_decimal(out, v / 10);
    }
    out.append(digit_str(v % 10));
    proof {
        assert(out@ =~= old(out)@ + dec_spec(v as nat));
    }
}

/// The decimal rendering of `v` as a fresh string.
pub fn u16_to_string(v: u16) -> (r: String)
    ensures
        r@ == dec_spec(v as nat),
{
    let mut s = String::new();
    append_decimal(&mut s, v);
    proof {
        assert(s@ =~= dec_spec(v as nat));
    }
    s
}

/// The reply payload of a successful operation: the status-bar JSON object
/// with the brightness as text, percentage and tooltip.
pub open spec fn ok_payload(v: u16) -> Seq<char> {
    "{\"text\":\""@ + dec_spec(v as nat) + "\",\"percentage\":"@ + dec_spec(v as nat)
        + ",\"tooltip\":\"Brightness: "@ + dec_spec(v as nat) + "%\"}"@
}

/// The reply payload of a failed operation: a placeholder display value and
/// the error message in the tooltip.
pub open spec fn err_payload(e: BrightnessError) -> Seq<char> {
    "{\"text\":\"?\",\"percentage\":0,\"tooltip\":\"Error: "@ + error_text(e) + "\"}"@
}

/// The one-line reply to a brightness operation.
pub open spec fn reply_text(res: Result<u16, BrightnessError>) -> Seq<char> {
    match res {
        Ok(v) => ok_payload(v),
        Err(e) => err_payload(e),
    }
}

/// Render an operation's outcome as the one-line protocol reply.
pub fn format_result(res: &Result<u16, BrightnessError>) -> (r: String)
    ensures
        r@ == reply_text(*res),
{
    match res {
        Ok(v) => {
            let mut s = String::from_str("{\"text\":\"");
            append_decimal(&mut s, *v);
            s.append("\",\"percentage\":");
            append_decimal(&mut s, *v);
            s.append(",\"tooltip\":\"Brightness: ");
            append_decimal(&mut s, *v);
            s.append("%\"}");
            proof {
                assert(s@ =~= ok_payload(*v));
            }
            s
        },
        Err(e) => {
            let mut s = String::from_str("{\"text\":\"?\",\"percentage\":0,\"tooltip\":\"Error: ");
            let msg = e.describe();
            s.append(msg.as_str());
            s.append("\"}");
            proof {
                assert(s@ =~= err_payload(*e));
            }
            s
        },
    }
}

/// The request line a client sends for each command (without the newline).
/// `Unknown` stands for no request and renders empty.
pub open spec fn request_text(cmd: Command) -> Seq<char> {
    match cmd {
        Command::Get => "get"@,
        Command::Up(n) => "up "@ + dec_spec(n as nat),
        Command::Down(n) => "down "@ + dec_spec(n as nat),
        Command::SetValue(v) => "set "@ + dec_spec(v as nat),
        Command::Stop => "stop"@,
        Command::Unknown => Seq::empty(),
    }
}

/// Render a command as its request line.
pub fn encode_request(cmd: &Command) -> (r: String)
    ensures
        r@ == request_text(*cmd),
{
    match cmd {
        Command::Get => String::from_str("get"),
        Command::Up(n) => {
            let mut s = String::from_str("up ");
            append_decimal(&mut s, *n);
            s
        },
        Command::Down(n) => {
            let mut s = String::from_str("down ");
            append_decimal(&mut s, *n);
            s
        },
        Command::SetValue(v) => {
            let mut s = String::from_str("set ");
            append_decimal(&mut s, *v);
            s
        },
        Command::Stop => String::from_str("stop"),
        Command::Unknown => {
            let s = String::new();
            proof {
                assert(s@ =~= Seq::<char>::empty());
            }
            s
        },
    }
}

} // verus!
