use lamp_control::model::AttributePayload;
use lamp_control::reconciler::{CommandError, Effects, LampControl, StoreWrite};
use lamp_control::store::NvsKey;

/// Carry out a decided operation the way the application does when every
/// write succeeds: confirm the port write, if any, and hand the effects on.
fn apply_all(c: &mut LampControl, effects: &Effects) {
    if let Some(level) = effects.port_write {
        c.confirm_port(level);
    }
}

#[test]
fn new_defaults_to_false() {
    let c = LampControl::new(None, None);
    assert_eq!(c.lamp_state(), false);
    assert_eq!(c.sensor_mode(), false);
}

#[test]
fn set_lamp_manual_applies() {
    let mut c = LampControl::new(None, None);
    let r = c.set_lamp(true).unwrap();
    assert_eq!(r.port_write, Some(true));
    assert_eq!(r.store_write, Some(StoreWrite { key: NvsKey::LampState, value: true }));
    assert_eq!(
        r.notification,
        Some(AttributePayload { lamp_state: true, sensor_state: false })
    );
    apply_all(&mut c, &r);
    assert_eq!(c.lamp_state(), true);
    assert_eq!(c.sensor_mode(), false);
}

#[test]
fn lamp_flag_waits_for_confirmed_port_write() {
    let mut c = LampControl::new(None, None);
    let r = c.set_lamp(true).unwrap();
    assert_eq!(r.port_write, Some(true));
    // the port write has not been confirmed: the flag still mirrors the
    // last successfully applied level
    assert_eq!(c.lamp_state(), false);
    c.confirm_port(true);
    assert_eq!(c.lamp_state(), true);
}

#[test]
fn failed_port_write_leaves_lamp_unchanged() {
    let mut c = LampControl::new(None, None);
    let r = c.set_lamp(true).unwrap();
    // the application could not drive the port: it confirms nothing and
    // abandons the operation, so the flag never moves
    assert!(r.port_write.is_some());
    assert_eq!(c.lamp_state(), false);
    assert_eq!(c.sensor_mode(), false);
    // a later accepted command still starts from the old level
    let again = c.set_lamp(false).unwrap();
    assert_eq!(again.port_write, Some(false));
}

#[test]
fn set_lamp_twice_writes_twice() {
    let mut c = LampControl::new(None, None);
    for _ in 0..2 {
        let r = c.set_lamp(true).unwrap();
        assert_eq!(r.port_write, Some(true));
        assert_eq!(r.store_write, Some(StoreWrite { key: NvsKey::LampState, value: true }));
        assert_eq!(
            r.notification,
            Some(AttributePayload { lamp_state: true, sensor_state: false })
        );
        apply_all(&mut c, &r);
    }
    assert_eq!(c.lamp_state(), true);
}

#[test]
fn set_lamp_blocked_in_automatic_mode() {
    let mut c = LampControl::new(None, None);
    c.set_sensor(true);
    let r = c.set_lamp(false);
    assert_eq!(r, Err(CommandError::BlockedByAutomaticMode));
    assert_eq!(c.lamp_state(), false);
    assert_eq!(c.sensor_mode(), true);
}

#[test]
fn set_sensor_moves_mode_not_lamp() {
    let mut c = LampControl::new(None, None);
    let r = c.set_sensor(true);
    assert_eq!(r.port_write, None);
    assert_eq!(r.store_write, Some(StoreWrite { key: NvsKey::SensorState, value: true }));
    assert_eq!(
        r.notification,
        Some(AttributePayload { lamp_state: false, sensor_state: true })
    );
    assert_eq!(c.lamp_state(), false);
    assert_eq!(c.sensor_mode(), true);
}

#[test]
fn sensor_tracking_follows_level_change() {
    let mut c = LampControl::new(None, None);
    c.set_sensor(true);
    // level still equals the lamp: the tick decides nothing
    let quiet = c.sensor_tick(false);
    assert_eq!(
        quiet,
        Effects { port_write: None, store_write: None, notification: None }
    );
    // level flips to true: the lamp follows within the tick
    let r = c.sensor_tick(true);
    assert_eq!(r.port_write, Some(true));
    assert_eq!(r.store_write, Some(StoreWrite { key: NvsKey::LampState, value: true }));
    assert_eq!(
        r.notification,
        Some(AttributePayload { lamp_state: true, sensor_state: true })
    );
    apply_all(&mut c, &r);
    assert_eq!(c.lamp_state(), true);
}

#[test]
fn leaving_automatic_mode_keeps_lamp() {
    let mut c = LampControl::new(None, None);
    c.set_sensor(true);
    let follow = c.sensor_tick(true);
    apply_all(&mut c, &follow);
    assert_eq!(c.lamp_state(), true);
    let r = c.set_sensor(false);
    assert_eq!(r.port_write, None);
    assert_eq!(r.store_write, Some(StoreWrite { key: NvsKey::SensorState, value: false }));
    assert_eq!(
        r.notification,
        Some(AttributePayload { lamp_state: true, sensor_state: false })
    );
    assert_eq!(c.lamp_state(), true);
    assert_eq!(c.sensor_mode(), false);
}

#[test]
fn tick_in_manual_mode_is_a_no_op() {
    let mut c = LampControl::new(None, None);
    let r = c.sensor_tick(true);
    assert_eq!(
        r,
        Effects { port_write: None, store_write: None, notification: None }
    );
    apply_all(&mut c, &r);
    assert_eq!(c.lamp_state(), false);
}

#[test]
fn last_accepted_set_lamp_wins() {
    let mut c = LampControl::new(None, None);
    let first = c.set_lamp(true).unwrap(); // accepted: mode is manual
    apply_all(&mut c, &first);
    c.set_sensor(true);
    assert!(c.set_lamp(false).is_err()); // rejected: mode is automatic
    c.set_sensor(false);
    // the last accepted SetLamp carried `true`
    assert_eq!(c.lamp_state(), true);
}
