use ddccid::BrightnessError;
use ddccid::BrightnessManager;
use ddccid::FakeBackend;
use ddccid::FakeDisplay;
use ddccid::Reply;
use ddccid::down_step_of;
use ddccid::handle_line;
use ddccid::startup_gate;
use ddccid::up_step_of;

fn respond_text(reply: Reply) -> String {
    match reply {
        Reply::Respond(s) => s,
        Reply::Shutdown(_) => panic!("expected a plain response"),
    }
}

#[test]
fn existing_socket_refuses_startup() {
    assert_eq!(
        startup_gate(true),
        Err(BrightnessError::AlreadyRunning)
    );
    assert_eq!(startup_gate(false), Ok(()));
}

#[test]
fn bogus_command_is_rejected_and_later_get_unaffected() {
    let mut backend = FakeBackend::new().unwrap();
    let first = respond_text(handle_line(&mut backend, "bogus\n"));
    assert_eq!(first.as_str(), "ERROR unknown command");

    // A separate, subsequent connection still gets a normal answer.
    let second = respond_text(handle_line(&mut backend, "get\n"));
    assert_eq!(
        second.as_str(),
        "{\"text\":\"50\",\"percentage\":50,\"tooltip\":\"Brightness: 50%\"}"
    );
}

#[test]
fn stop_acknowledges_and_asks_for_shutdown() {
    let mut backend = FakeBackend::new().unwrap();
    match handle_line(&mut backend, "stop\n") {
        Reply::Shutdown(s) => assert_eq!(s.as_str(), "OK stopping"),
        Reply::Respond(_) => panic!("stop must shut the daemon down"),
    }
}

#[test]
fn set_over_protocol_echoes_clamped_value() {
    let mut backend = FakeBackend::new().unwrap();
    let reply = respond_text(handle_line(&mut backend, "set 120\n"));
    assert_eq!(
        reply.as_str(),
        "{\"text\":\"100\",\"percentage\":100,\"tooltip\":\"Brightness: 100%\"}"
    );
}

#[test]
fn up_with_malformed_step_uses_default() {
    let mut backend = FakeBackend::new().unwrap();
    // The cache was seeded with 50 at construction; the default step is 5.
    let reply = respond_text(handle_line(&mut backend, "up abc\n"));
    assert_eq!(
        reply.as_str(),
        "{\"text\":\"55\",\"percentage\":55,\"tooltip\":\"Brightness: 55%\"}"
    );
}

#[test]
fn writes_land_once_the_cooldown_expires() {
    let mut backend = FakeBackend::new().unwrap();
    backend.advance(1000);
    let set_reply = respond_text(handle_line(&mut backend, "set 80\n"));
    assert_eq!(
        set_reply.as_str(),
        "{\"text\":\"80\",\"percentage\":80,\"tooltip\":\"Brightness: 80%\"}"
    );
    // The fake display now really holds 80, and the expired read cooldown
    // makes the next get observe it from hardware.
    let get_reply = respond_text(handle_line(&mut backend, "get\n"));
    assert_eq!(
        get_reply.as_str(),
        "{\"text\":\"80\",\"percentage\":80,\"tooltip\":\"Brightness: 80%\"}"
    );
    assert_eq!(backend.manager_ref().displays()[0].value, 80);
}

#[test]
fn extreme_steps_over_protocol_saturate_at_the_bounds() {
    // From the baseline of 50, a huge downward step floors at 0 and a huge
    // upward step caps at 100, whatever the step's magnitude.
    let mut backend = FakeBackend::new().unwrap();
    backend.advance(1000);
    let down = respond_text(handle_line(&mut backend, "down 60000\n"));
    assert_eq!(
        down.as_str(),
        "{\"text\":\"0\",\"percentage\":0,\"tooltip\":\"Brightness: 0%\"}"
    );
    backend.advance(1000);
    let up = respond_text(handle_line(&mut backend, "up 60000\n"));
    assert_eq!(
        up.as_str(),
        "{\"text\":\"100\",\"percentage\":100,\"tooltip\":\"Brightness: 100%\"}"
    );
}

#[test]
fn protocol_set_fans_out_over_all_displays() {
    let displays = vec![
        FakeDisplay::new(50),
        FakeDisplay::failing(50, false, true),
        FakeDisplay::new(50),
    ];
    let mut backend = FakeBackend::from_displays(displays, 0).unwrap();
    backend.advance(1000);
    let reply = respond_text(handle_line(&mut backend, "set 90\n"));
    assert_eq!(
        reply.as_str(),
        "{\"text\":\"90\",\"percentage\":90,\"tooltip\":\"Brightness: 90%\"}"
    );
    for d in backend.manager_ref().displays().iter() {
        assert_eq!(*d.write_log(), vec![90]);
    }
}

#[test]
fn step_saturation_at_the_signed_bounds() {
    assert_eq!(up_step_of(5), 5);
    assert_eq!(up_step_of(32767), i16::MAX);
    assert_eq!(up_step_of(65535), i16::MAX);
    assert_eq!(down_step_of(5), -5);
    assert_eq!(down_step_of(32767), -32767);
    assert_eq!(down_step_of(32768), i16::MIN);
    assert_eq!(down_step_of(65535), i16::MIN);

    // A step at the saturation boundary still floors the value at 0.
    let mut backend = FakeBackend::new().unwrap();
    backend.advance(1000);
    let reply = respond_text(handle_line(&mut backend, "down 32768\n"));
    assert_eq!(
        reply.as_str(),
        "{\"text\":\"0\",\"percentage\":0,\"tooltip\":\"Brightness: 0%\"}"
    );
}

#[test]
fn down_over_protocol_moves_the_cached_value() {
    let mut backend = FakeBackend::new().unwrap();
    backend.advance(1000);
    let reply = respond_text(handle_line(&mut backend, "down 20\n"));
    assert_eq!(
        reply.as_str(),
        "{\"text\":\"30\",\"percentage\":30,\"tooltip\":\"Brightness: 30%\"}"
    );
}
