use outlet_control::controller::{command_outlet, default_pins, init_gpio, settle_write};
use outlet_control::outlet::OutletError;
use outlet_control::registry::Registry;

fn board() -> Registry {
    Registry::from_states(&vec![4u8, 22, 6, 26], &vec![false, false, false, false])
}

#[test]
fn default_pins_match_the_static_configuration() {
    assert_eq!(default_pins(), vec![4u8, 22, 6, 26]);
}

#[test]
fn init_gpio_builds_the_configured_board() {
    let reg = init_gpio();
    let snapshot = reg.list();
    assert_eq!(snapshot.len(), 4);
    let pins: Vec<u8> = snapshot.iter().map(|o| o.pin).collect();
    assert_eq!(pins, vec![4u8, 22, 6, 26]);
    for (i, outlet) in snapshot.iter().enumerate() {
        assert_eq!(outlet.id, i);
    }
    assert!(reg.check_wf());
}

#[test]
fn confirmed_write_updates_the_cache() {
    let mut reg = board();
    let outcome = settle_write(&mut reg, 1, true, Ok(()));
    assert!(outcome.is_ok());
    let snapshot = reg.list();
    assert!(snapshot[1].active);
    assert!(!snapshot[0].active && !snapshot[2].active && !snapshot[3].active);
}

#[test]
fn failed_write_leaves_the_cache_at_its_prior_value() {
    let mut reg = Registry::from_states(&vec![4u8, 22], &vec![true, false]);
    let outcome = settle_write(&mut reg, 0, false, Err("pin busy".to_string()));
    match outcome {
        Err(OutletError::HardwareWriteFailed(cause)) => assert_eq!(cause, "pin busy"),
        other => panic!("expected a hardware failure, got {:?}", other),
    }
    let snapshot = reg.list();
    assert!(snapshot[0].active);
    assert!(!snapshot[1].active);
}

#[test]
fn repeating_a_confirmed_command_is_idempotent() {
    let mut reg = board();
    assert!(settle_write(&mut reg, 2, true, Ok(())).is_ok());
    let once = reg.list();
    assert!(settle_write(&mut reg, 2, true, Ok(())).is_ok());
    let twice = reg.list();
    assert_eq!(once, twice);
    assert!(twice[2].active);
}

#[test]
fn the_last_confirmed_command_wins() {
    let mut reg = board();
    assert!(settle_write(&mut reg, 3, true, Ok(())).is_ok());
    assert!(settle_write(&mut reg, 3, false, Ok(())).is_ok());
    assert!(!reg.list()[3].active);

    let mut other = board();
    assert!(settle_write(&mut other, 3, false, Ok(())).is_ok());
    assert!(settle_write(&mut other, 3, true, Ok(())).is_ok());
    assert!(other.list()[3].active);
}

#[test]
fn switching_off_mirrors_switching_on() {
    let mut reg = Registry::from_states(&vec![4u8, 22], &vec![true, true]);
    assert!(settle_write(&mut reg, 1, false, Ok(())).is_ok());
    let snapshot = reg.list();
    assert!(!snapshot[1].active);
    assert!(snapshot[0].active);
}

#[test]
fn commanding_an_unknown_outlet_touches_nothing() {
    let mut reg = board();
    let before = reg.list();
    let outcome = command_outlet(&mut reg, 999, true);
    assert!(matches!(outcome, Err(OutletError::UnknownOutlet)));
    assert_eq!(reg.list(), before);
}
