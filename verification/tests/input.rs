use snake::{command_of, remaining_wait, InputEvent, Key, READ_TIME};

#[test]
fn a_key_is_handed_on() {
    assert_eq!(command_of(Some(InputEvent::Key(Key::Up))), Some(Key::Up));
    assert_eq!(command_of(Some(InputEvent::Key(Key::Char('w')))), Some(Key::Char('w')));
    assert_eq!(command_of(Some(InputEvent::Key(Key::Esc))), Some(Key::Esc));
    assert_eq!(command_of(Some(InputEvent::Key(Key::Other))), Some(Key::Other));
}

#[test]
fn a_resize_counts_as_the_quit_key() {
    assert_eq!(command_of(Some(InputEvent::Resize)), Some(Key::Esc));
}

#[test]
fn the_mouse_counts_as_no_key() {
    assert_eq!(command_of(Some(InputEvent::Other)), None);
}

#[test]
fn a_quiet_tick_has_no_key() {
    assert_eq!(command_of(None), None);
}

#[test]
fn the_tick_lasts_a_tenth_of_a_second() {
    assert_eq!(READ_TIME, 100);
}

#[test]
fn an_early_key_waits_out_the_rest() {
    assert_eq!(remaining_wait(100, 0), 100);
    assert_eq!(remaining_wait(100, 30), 70);
    assert_eq!(remaining_wait(100, 99), 1);
}

#[test]
fn a_full_tick_waits_no_longer() {
    assert_eq!(remaining_wait(100, 100), 0);
    assert_eq!(remaining_wait(100, 250), 0);
    assert_eq!(remaining_wait(0, 0), 0);
    assert_eq!(remaining_wait(u64::MAX, u64::MAX), 0);
    assert_eq!(remaining_wait(u64::MAX, 0), u64::MAX);
}

#[test]
fn every_tick_lasts_at_least_its_length() {
    for elapsed in 0..300u64 {
        let rest = remaining_wait(READ_TIME, elapsed);
        assert!(elapsed + rest >= READ_TIME);
        assert!(rest <= READ_TIME);
    }
}
