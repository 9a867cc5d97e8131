use linear_actuator::controller::{App, Key, Reaction, MAX_SPEED};
use linear_actuator::protocol::{telemetry_from_read, Actuator, ActuatorCommand, Direction, TelemetrySample};
use linear_actuator::status::Status;

fn set_speed(v: u16, a: Actuator) -> Reaction {
    Reaction::Send(ActuatorCommand::SetSpeed(v, a))
}

#[test]
fn initial_state() {
    let app = App::new();
    assert_eq!(app.speed, 0);
    assert_eq!(app.max_speed, 65535);
    assert_eq!(app.direction, Direction::Forward);
    assert_eq!(app.actuator, Actuator::M1);
    assert_eq!(app.status, Status::Ready);
    assert_eq!(app.telemetry, TelemetrySample { bits: 0 });
}

#[test]
fn up_up_plus_scenario() {
    let mut app = App::new();
    let sent = vec![
        app.handle_key(Key::Up),
        app.handle_key(Key::Up),
        app.handle_key(Key::Char('+')),
    ];
    assert_eq!(app.speed, 7000);
    assert_eq!(
        sent,
        vec![set_speed(1000, Actuator::M1), set_speed(2000, Actuator::M1), set_speed(7000, Actuator::M1)]
    );
}

#[test]
fn increase_at_ceiling_is_noop() {
    let mut app = App::new();
    app.increase_speed(MAX_SPEED);
    assert_eq!(app.speed, 65535);
    let before = app.clone();
    assert_eq!(app.handle_key(Key::Up), set_speed(65535, Actuator::M1));
    assert_eq!(app, before);
    assert_eq!(app.handle_key(Key::Char('+')), set_speed(65535, Actuator::M1));
    assert_eq!(app, before);
}

#[test]
fn increase_clamps_to_ceiling() {
    let mut app = App::new();
    app.increase_speed(64000);
    app.handle_key(Key::Char('+'));
    assert_eq!(app.speed, 65535);
    app.increase_speed(u32::MAX);
    assert_eq!(app.speed, 65535);
}

#[test]
fn decrease_at_zero_is_noop() {
    let mut app = App::new();
    assert_eq!(app.handle_key(Key::Down), set_speed(0, Actuator::M1));
    assert_eq!(app.speed, 0);
    assert_eq!(app.handle_key(Key::Char('-')), set_speed(0, Actuator::M1));
    assert_eq!(app.speed, 0);
}

#[test]
fn decrease_saturates() {
    let mut app = App::new();
    app.increase_speed(3000);
    app.handle_key(Key::Char('-'));
    assert_eq!(app.speed, 0);
    app.increase_speed(7000);
    app.decrease_speed(1000);
    assert_eq!(app.speed, 6000);
}

#[test]
fn direction_keys() {
    let mut app = App::new();
    assert_eq!(
        app.handle_key(Key::Left),
        Reaction::Send(ActuatorCommand::SetDirection(Direction::Backward, Actuator::M1))
    );
    assert_eq!(app.direction, Direction::Backward);
    assert_eq!(
        app.handle_key(Key::Right),
        Reaction::Send(ActuatorCommand::SetDirection(Direction::Forward, Actuator::M1))
    );
    assert_eq!(app.direction, Direction::Forward);
    app.set_direction(Direction::Backward);
    assert_eq!(app.direction, Direction::Backward);
}

#[test]
fn stop_key() {
    let mut app = App::new();
    app.increase_speed(12000);
    assert_eq!(app.handle_key(Key::Char('s')), set_speed(0, Actuator::M1));
    assert_eq!(app.speed, 0);
}

#[test]
fn switch_actuator_stops_previous_one() {
    let mut app = App::new();
    app.handle_key(Key::Up);
    assert_eq!(app.handle_key(Key::Char('a')), set_speed(0, Actuator::M1));
    assert_eq!(app.speed, 0);
    assert_eq!(app.actuator, Actuator::M2);
    assert_eq!(app.status, Status::Switched(Actuator::M2));
    assert_eq!(app.status.text(), "Switched to M2");
    app.handle_key(Key::Char('+'));
    assert_eq!(app.handle_key(Key::Char('a')), set_speed(0, Actuator::M2));
    assert_eq!(app.actuator, Actuator::M1);
    assert_eq!(app.speed, 0);
}

#[test]
fn quit_and_unbound_keys() {
    let mut app = App::new();
    app.increase_speed(1000);
    let before = app.clone();
    assert_eq!(app.handle_key(Key::Char('q')), Reaction::Quit);
    assert_eq!(app.handle_key(Key::Char('x')), Reaction::Ignore);
    assert_eq!(app.handle_key(Key::Other), Reaction::Ignore);
    assert_eq!(app, before);
}

#[test]
fn short_read_leaves_view_model_unchanged() {
    let mut app = App::new();
    app.refresh(None, telemetry_from_read(&1.25f64.to_le_bytes()));
    assert_eq!(f64::from_bits(app.telemetry.bits), 1.25);
    let before = app.clone();
    app.refresh(None, telemetry_from_read(&[9, 9, 9, 9, 9]));
    assert_eq!(app, before);
}

#[test]
fn refresh_replaces_status_and_sample() {
    let mut app = App::new();
    app.refresh(Some(Status::SpeedSet(3000)), Some(TelemetrySample { bits: 7 }));
    assert_eq!(app.status, Status::SpeedSet(3000));
    assert_eq!(app.telemetry, TelemetrySample { bits: 7 });
    app.refresh(None, None);
    assert_eq!(app.status, Status::SpeedSet(3000));
    assert_eq!(app.telemetry, TelemetrySample { bits: 7 });
}
