use sms_terminal::keys::{KeyCode, KeyDebouncer, KeyModifiers, KeyPress};

fn key(code: KeyCode) -> KeyPress {
    KeyPress { code, modifiers: KeyModifiers { control: false, alt: false, shift: false } }
}

#[test]
fn debounce_burst_only_first_accepted() {
    let mut d = KeyDebouncer::new(50);
    let k = key(KeyCode::Char('a'));
    assert!(d.should_process(&k, 100));
    assert!(!d.should_process(&k, 120));
    assert!(!d.should_process(&k, 149));
    assert!(d.should_process(&k, 150));
}

#[test]
fn debounce_spaced_all_accepted() {
    let mut d = KeyDebouncer::new(50);
    let k = key(KeyCode::Down);
    assert!(d.should_process(&k, 100));
    assert!(d.should_process(&k, 150));
    assert!(d.should_process(&k, 200));
}

#[test]
fn debounce_different_key_always_accepted_and_resets() {
    let mut d = KeyDebouncer::new(50);
    let a = key(KeyCode::Char('a'));
    let b = key(KeyCode::Char('b'));
    assert!(d.should_process(&a, 100));
    // a different key interleaved in the burst is accepted at once
    assert!(d.should_process(&b, 110));
    // and restarts the window for its own kind
    assert!(!d.should_process(&b, 120));
    assert!(d.should_process(&a, 130));
}

#[test]
fn debounce_modifiers_distinguish_keys() {
    let mut d = KeyDebouncer::new(50);
    let plain = key(KeyCode::Char('c'));
    let ctrl = KeyPress {
        code: KeyCode::Char('c'),
        modifiers: KeyModifiers { control: true, alt: false, shift: false },
    };
    assert!(d.should_process(&plain, 100));
    assert!(d.should_process(&ctrl, 110));
}

#[test]
fn debounce_reset_accepts_immediately() {
    let mut d = KeyDebouncer::new(50);
    let k = key(KeyCode::Esc);
    assert!(d.should_process(&k, 100));
    d.reset();
    assert!(d.should_process(&k, 101));
}
