use ddccid::BrightnessError;
use ddccid::Command;
use ddccid::encode_request;
use ddccid::format_result;
use ddccid::parse_command;
use ddccid::u16_to_string;

#[test]
fn parse_plain_commands() {
    assert_eq!(parse_command("get"), Command::Get);
    assert_eq!(parse_command("get\n"), Command::Get);
    assert_eq!(parse_command("  get  "), Command::Get);
    assert_eq!(parse_command("stop"), Command::Stop);
    assert_eq!(parse_command("stop\r\n"), Command::Stop);
}

#[test]
fn parse_numeric_commands() {
    assert_eq!(parse_command("up 7\n"), Command::Up(7));
    assert_eq!(parse_command("down 3"), Command::Down(3));
    assert_eq!(parse_command("set 150"), Command::SetValue(150));
    assert_eq!(parse_command("set 65535"), Command::SetValue(65535));
    assert_eq!(parse_command("up +12"), Command::Up(12));
}

#[test]
fn parse_defaults_on_malformed_argument() {
    assert_eq!(parse_command("up x"), Command::Up(5));
    assert_eq!(parse_command("down 1x2"), Command::Down(5));
    assert_eq!(parse_command("set abc"), Command::SetValue(50));
    assert_eq!(parse_command("up 99999"), Command::Up(5));
    assert_eq!(parse_command("set 65536"), Command::SetValue(50));
    assert_eq!(parse_command("up +"), Command::Up(5));
}

#[test]
fn parse_trims_unicode_whitespace() {
    assert_eq!(parse_command("\u{00A0}get\u{3000}"), Command::Get);
    assert_eq!(parse_command("\u{2003}up 7\u{2028}\r\n"), Command::Up(7));
    assert_eq!(parse_command("\u{0085}stop\u{202F}"), Command::Stop);
}

#[test]
fn parse_unknown_commands() {
    assert_eq!(parse_command("bogus"), Command::Unknown);
    assert_eq!(parse_command(""), Command::Unknown);
    assert_eq!(parse_command("   \n"), Command::Unknown);
    assert_eq!(parse_command("up"), Command::Unknown);
    assert_eq!(parse_command("get extra"), Command::Unknown);
    assert_eq!(parse_command("UP 5"), Command::Unknown);
}

#[test]
fn decimal_rendering() {
    assert_eq!(u16_to_string(0).as_str(), "0");
    assert_eq!(u16_to_string(7).as_str(), "7");
    assert_eq!(u16_to_string(42).as_str(), "42");
    assert_eq!(u16_to_string(100).as_str(), "100");
    assert_eq!(u16_to_string(65535).as_str(), "65535");
}

#[test]
fn format_ok_reply() {
    assert_eq!(
        format_result(&Ok(42)).as_str(),
        "{\"text\":\"42\",\"percentage\":42,\"tooltip\":\"Brightness: 42%\"}"
    );
    assert_eq!(
        format_result(&Ok(0)).as_str(),
        "{\"text\":\"0\",\"percentage\":0,\"tooltip\":\"Brightness: 0%\"}"
    );
}

#[test]
fn format_error_reply() {
    assert_eq!(
        format_result(&Err(BrightnessError::HardwareError)).as_str(),
        "{\"text\":\"?\",\"percentage\":0,\"tooltip\":\"Error: hardware transaction failed\"}"
    );
    assert_eq!(
        format_result(&Err(BrightnessError::NoDisplaysFound)).as_str(),
        "{\"text\":\"?\",\"percentage\":0,\"tooltip\":\"Error: no DDC/CI-capable displays found\"}"
    );
}

#[test]
fn encode_requests() {
    assert_eq!(encode_request(&Command::Get).as_str(), "get");
    assert_eq!(encode_request(&Command::Stop).as_str(), "stop");
    assert_eq!(encode_request(&Command::Up(5)).as_str(), "up 5");
    assert_eq!(encode_request(&Command::Down(12)).as_str(), "down 12");
    assert_eq!(encode_request(&Command::SetValue(70)).as_str(), "set 70");
}

#[test]
fn encode_parse_round_trip() {
    let commands = [
        Command::Get,
        Command::Stop,
        Command::Up(1),
        Command::Down(100),
        Command::SetValue(65535),
    ];
    for cmd in commands {
        assert_eq!(parse_command(encode_request(&cmd).as_str()), cmd);
    }
}

#[test]
fn error_messages() {
    assert_eq!(
        BrightnessError::NoDisplaysFound.describe().as_str(),
        "no DDC/CI-capable displays found"
    );
    assert_eq!(
        BrightnessError::AlreadyRunning.describe().as_str(),
        "daemon already running (socket exists)"
    );
}
