use ddccid::BrightnessError;
use ddccid::CachedManager;
use ddccid::FakeDisplay;
use ddccid::READ_COOLDOWN_MS;
use ddccid::WRITE_COOLDOWN_MS;

fn one_display_manager(value: u16) -> CachedManager<FakeDisplay> {
    let displays = vec![FakeDisplay::new(value)];
    CachedManager::with_displays(displays, 0).unwrap()
}

#[test]
fn set_echoes_min_of_value_and_100() {
    // Requested values across 0..=150 echo min(v, 100), whether or not the
    // write cooldown suppresses the hardware write.
    let mut m = one_display_manager(50);
    let mut now: u64 = 0;
    for v in 0..=150u16 {
        now += 1;
        let echoed = m.set_brightness_at(now, v).unwrap();
        assert_eq!(echoed, v.min(100));
    }
}

#[test]
fn adjust_saturates_at_both_ends() {
    let mut m = one_display_manager(50);
    // Both cooldowns expired: the adjustment reads 50 and writes the result.
    let r1 = m.adjust_brightness_at(1000, i16::MIN).unwrap();
    assert_eq!(r1, 0);
    let r2 = m.adjust_brightness_at(2000, i16::MAX).unwrap();
    assert_eq!(r2, 100);
}

#[test]
fn adjust_never_leaves_range() {
    let mut m = one_display_manager(50);
    let steps: [i16; 8] = [i16::MIN, -1000, -1, 0, 1, 99, 1000, i16::MAX];
    let mut now: u64 = 0;
    for step in steps {
        now += 1000;
        let reported = m.adjust_brightness_at(now, step).unwrap();
        assert!(reported <= 100);
    }
}

#[test]
fn get_within_cooldown_answers_from_cache() {
    let mut m = one_display_manager(50);
    // Construction performed the one initial hardware read.
    assert_eq!(m.displays()[0].read_count(), 1);

    let a = m.get_brightness_at(READ_COOLDOWN_MS / 2).unwrap();
    let b = m.get_brightness_at(READ_COOLDOWN_MS - 1).unwrap();
    assert_eq!(a, 50);
    assert_eq!(a, b);
    // No second hardware transaction was observable inside the window.
    assert_eq!(m.displays()[0].read_count(), 1);

    // Once the window expires, a real read reaches the display again.
    let c = m.get_brightness_at(READ_COOLDOWN_MS).unwrap();
    assert_eq!(c, 50);
    assert_eq!(m.displays()[0].read_count(), 2);
}

#[test]
fn set_within_cooldown_echoes_new_value_without_write() {
    let mut m = one_display_manager(50);
    let first = m.set_brightness_at(WRITE_COOLDOWN_MS, 80).unwrap();
    assert_eq!(first, 80);
    assert_eq!(*m.displays()[0].write_log(), vec![80]);
    assert_eq!(m.cached_value(), 80);

    // A second set inside the fresh window echoes the *newly requested*
    // clamped value, not the cached one, and no write reaches the display.
    let second = m.set_brightness_at(WRITE_COOLDOWN_MS + 1, 60).unwrap();
    assert_eq!(second, 60);
    assert_eq!(*m.displays()[0].write_log(), vec![80]);
    assert_eq!(m.cached_value(), 80);
}

#[test]
fn set_fans_out_to_every_display_despite_one_failure() {
    let displays = vec![
        FakeDisplay::new(50),
        FakeDisplay::failing(50, false, true),
        FakeDisplay::new(50),
    ];
    let mut m = CachedManager::with_displays(displays, 0).unwrap();

    // The write cooldown has expired, so the value fans out to all three
    // displays; the middle one fails, which neither blocks the others nor
    // fails the call, and the cache reflects the value once afterwards.
    let echoed = m.set_brightness_at(WRITE_COOLDOWN_MS, 70).unwrap();
    assert_eq!(echoed, 70);
    for d in m.displays().iter() {
        assert_eq!(*d.write_log(), vec![70]);
    }
    assert_eq!(m.displays()[0].value, 70);
    assert_eq!(m.displays()[1].value, 50);
    assert_eq!(m.displays()[2].value, 70);
    assert_eq!(m.cached_value(), 70);

    // A second call in a later window reaches all three again.
    let echoed = m.set_brightness_at(2 * WRITE_COOLDOWN_MS, 30).unwrap();
    assert_eq!(echoed, 30);
    for d in m.displays().iter() {
        assert_eq!(*d.write_log(), vec![70, 30]);
    }
}

#[test]
fn empty_enumeration_is_fatal() {
    let r = CachedManager::<FakeDisplay>::with_displays(Vec::new(), 0);
    assert_eq!(r.err().unwrap(), BrightnessError::NoDisplaysFound);
}

#[test]
fn failed_initial_read_is_a_hardware_error() {
    let displays = vec![FakeDisplay::failing(50, true, false)];
    let r = CachedManager::with_displays(displays, 0);
    assert_eq!(r.err().unwrap(), BrightnessError::HardwareError);
}

#[test]
fn reads_are_clamped_to_percentage() {
    // When hardware reports more than 100, the cache and the reply stay
    // inside the percentage range.
    let mut wild = CachedManager::with_displays(vec![FakeDisplay::new(1000)], 0).unwrap();
    assert_eq!(wild.cached_value(), 100);
    assert_eq!(wild.get_brightness_at(READ_COOLDOWN_MS).unwrap(), 100);
}
