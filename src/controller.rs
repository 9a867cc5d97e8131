//! The operator-facing state machine: the view-model that is rendered every
//! tick, and the mapping from key presses to state changes and commands.

use vstd::prelude::*;
use crate::protocol::{Actuator, ActuatorCommand, Direction, TelemetrySample};
use crate::status::Status;

verus! {

/// The ceiling of the commanded speed: the full range of the 16-bit speed
/// field.
pub const MAX_SPEED: u32 = 65535;

/// Speed change of the increase-speed and decrease-speed keys.
pub const SPEED_STEP: u32 = 1000;

/// Speed change of the `+` and `-` keys.
pub const SPEED_JUMP: u32 = 5000;

/// A key press, as far as the controller tells keys apart.
#[derive(Clone, Copy, Debug, PartialEq, Eq, Structural)]
pub enum Key {
    /// Increase speed.
    Up,
    /// Decrease speed.
    Down,
    /// Turn backward.
    Left,
    /// Turn forward.
    Right,
    /// A character key.
    Char(char),
    /// Any other key.
    Other,
}

/// What the interaction loop does after a key press.
#[derive(Clone, Copy, Debug, PartialEq, Eq, Structural)]
pub enum Reaction {
    /// Leave the loop and restore the terminal.
    Quit,
    /// Queue this command for the dispatcher.
    Send(ActuatorCommand),
    /// Nothing to send.
    Ignore,
}

/// The view-model: everything the interaction loop renders.
#[derive(Clone, Debug, PartialEq, Eq)]
pub struct App {
    /// The commanded speed, never above `max_speed`.
    pub speed: u32,
    /// The commanded direction.
    pub direction: Direction,
    /// The ceiling of the commanded speed.
    pub max_speed: u32,
    /// The outcome last reported to the operator.
    pub status: Status,
    /// The actuator that commands go to.
    pub actuator: Actuator,
    /// The last telemetry sample received.
    pub telemetry: TelemetrySample,
}

/// The speed after raising `speed` by `amount`, held at `max`.
pub open spec fn raised(speed: u32, amount: u32, max: u32) -> u32 {
    if speed + amount > max {
        max
    } else {
        (speed + amount) as u32
    }
}

/// The speed after lowering `speed` by `amount`, held at zero.
pub open spec fn lowered(speed: u32, amount: u32) -> u32 {
    if speed >= amount {
        (speed - amount) as u32
    } else {
        0
    }
}

/// The state with another speed, and the command that announces it.
pub open spec fn with_speed(s: App, speed: u32) -> (App, Reaction) {
    (App { speed, ..s }, Reaction::Send(ActuatorCommand::SetSpeed(speed as u16, s.actuator)))
}

/// The state with another direction, and the command that announces it.
pub open spec fn with_direction(s: App, d: Direction) -> (App, Reaction) {
    (App { direction: d, ..s }, Reaction::Send(ActuatorCommand::SetDirection(d, s.actuator)))
}

/// The next state and the reaction for a key press.
pub open spec fn step(s: App, key: Key) -> (App, Reaction) {
    match key {
        Key::Up => with_speed(s, raised(s.speed, SPEED_STEP, s.max_speed)),
        Key::Down => with_speed(s, lowered(s.speed, SPEED_STEP)),
        Key::Left => with_direction(s, Direction::Backward),
        Key::Right => with_direction(s, Direction::Forward),
        Key::Char(c) => if c == 'q' {
            (s, Reaction::Quit)
        } else if c == 's' {
            with_speed(s, 0)
        } else if c == '+' {
            with_speed(s, raised(s.speed, SPEED_JUMP, s.max_speed))
        } else if c == '-' {
            with_speed(s, lowered(s.speed, SPEED_JUMP))
        } else if c == 'a' {
            let other = if s.actuator == Actuator::M1 {
                Actuator::M2
            } else {
                Actuator::M1
            };
            (
                App { speed: 0, actuator: other, status: Status::Switched(other), ..s },
                Reaction::Send(ActuatorCommand::SetSpeed(0, s.actuator)),
            )
        } else {
            (s, Reaction::Ignore)
        },
        Key::Other => (s, Reaction::Ignore),
    }
}

impl App {
    /// The speed never exceeds the ceiling, and the ceiling fits the 16-bit
    /// speed field.
    pub open spec fn wf(&self) -> bool {
        self.speed <= self.max_speed <= MAX_SPEED
    }

    /// The state at start-up: stopped, forward, on the primary actuator.
    pub fn new() -> (r: App)
        ensures
            r.wf(),
            r.speed == 0,
            r.direction == Direction::Forward,
            r.max_speed == MAX_SPEED,
            r.status == Status::Ready,
            r.actuator == Actuator::M1,
            r.telemetry == (TelemetrySample { bits: 0 }),
    {
        App {
            speed: 0,
            direction: Direction::Forward,
            max_speed: MAX_SPEED,
            status: Status::Ready,
            actuator: Actuator::M1,
            telemetry: TelemetrySample { bits: 0 },
        }
    }

    /// Raises the speed by `amount`, held at the ceiling.
    pub fn increase_speed(&mut self, amount: u32)
        requires
            old(self).wf(),
        ensures
            *final(self) == (App { speed: raised(old(self).speed, amount, old(self).max_speed), ..*old(self) }),
            final(self).wf(),
    {
        if amount > self.max_speed - self.speed {
            self.speed = self.max_speed;
        } else {
            self.speed = self.speed + amount;
        }
    }

    /// Lowers the speed by `amount`, held at zero.
    pub fn decrease_speed(&mut self, amount: u32)
        requires
            old(self).wf(),
        ensures
            *final(self) == (App { speed: lowered(old(self).speed, amount), ..*old(self) }),
            final(self).wf(),
    {
        self.speed = self.speed.saturating_sub(amount);
    }

    /// Sets the commanded direction.
    pub fn set_direction(&mut self, dir: Direction)
        requires
            old(self).wf(),
        ensures
            *final(self) == (App { direction: dir, ..*old(self) }),
            final(self).wf(),
    {
        self.direction = dir;
    }

    /// The `SetSpeed` command for the current speed and actuator.
    fn speed_command(&self) -> (r: Reaction)
        requires
            self.wf(),
        ensures
            r == Reaction::Send(ActuatorCommand::SetSpeed(self.speed as u16, self.actuator)),
    {
        Reaction::Send(ActuatorCommand::SetSpeed(self.speed as u16, self.actuator))
    }

    /// Applies a key press and says what the loop does next.
    pub fn handle_key(&mut self, key: Key) -> (r: Reaction)
        requires
            old(self).wf(),
        ensures
            (*final(self), r) == step(*old(self), key),
            final(self).wf(),
    {
        match key {
            Key::Up => {
                self.increase_speed(SPEED_STEP);
                self.speed_command()
            },
            Key::Down => {
                self.decrease_speed(SPEED_STEP);
                self.speed_command()
            },
            Key::Left => {
                self.set_direction(Direction::Backward);
                Reaction::Send(ActuatorCommand::SetDirection(Direction::Backward, self.actuator))
            },
            Key::Right => {
                self.set_direction(Direction::Forward);
                Reaction::Send(ActuatorCommand::SetDirection(Direction::Forward, self.actuator))
            },
            Key::Char(c) => {
                if c == 'q' {
                    Reaction::Quit
                } else if c == 's' {
                    self.speed = 0;
                    self.speed_command()
                } else if c == '+' {
                    self.increase_speed(SPEED_JUMP);
                    self.speed_command()
                } else if c == '-' {
                    self.decrease_speed(SPEED_JUMP);
                    self.speed_command()
                } else if c == 'a' {
                    self.speed = 0;
                    let r = self.speed_command();
                    self.actuator = self.actuator.toggled();
                    self.status = Status::Switched(self.actuator);
                    r
                } else {
                    Reaction::Ignore
                }
            },
            Key::Other => Reaction::Ignore,
        }
    }

    /// Takes in what the background tasks published since the last tick: at
    /// most one status and one telemetry sample, each replacing the one shown.
    pub fn refresh(&mut self, status: Option<Status>, sample: Option<TelemetrySample>)
        requires
            old(self).wf(),
        ensures
            final(self).wf(),
            final(self).speed == old(self).speed,
            final(self).direction == old(self).direction,
            final(self).max_speed == old(self).max_speed,
            final(self).actuator == old(self).actuator,
            final(self).status == (match status {
                Some(s) => s,
                None => old(self).status,
            }),
            final(self).telemetry == (match sample {
                Some(t) => t,
                None => old(self).telemetry,
            }),
    {
        if let Some(s) = status {
            self.status = s;
        }
        if let Some(t) = sample {
            self.telemetry = t;
        }
    }
}

/// Whatever key is pressed, the commanded speed stays within zero and the
/// ceiling, and every `SetSpeed` command sent carries that speed.
pub proof fn lemma_speed_stays_in_range(s: App, key: Key)
    requires
        s.wf(),
    ensures
        step(s, key).0.wf(),
        0 <= step(s, key).0.speed <= s.max_speed,
        step(s, key).0.max_speed == s.max_speed,
        step(s, key).1 matches Reaction::Send(ActuatorCommand::SetSpeed(v, _)) ==> v
            == step(s, key).0.speed,
{
}

/// Raising the speed by any amount never passes the ceiling and lowering it
/// never goes below zero; at the ceiling raising leaves it there, and at zero
/// lowering leaves it at zero: speed saturates and never wraps.
pub proof fn lemma_speed_saturates(s: App, amount: u32)
    requires
        s.wf(),
    ensures
        s.speed <= raised(s.speed, amount, s.max_speed) <= s.max_speed,
        0 <= lowered(s.speed, amount) <= s.speed,
        s.speed == s.max_speed ==> raised(s.speed, amount, s.max_speed) == s.speed,
        s.speed == 0 ==> lowered(s.speed, amount) == 0,
        s.speed == s.max_speed ==> step(s, Key::Up).0 == s,
        s.speed == s.max_speed ==> step(s, Key::Char('+')).0 == s,
        s.speed == 0 ==> step(s, Key::Down).0 == s,
        s.speed == 0 ==> step(s, Key::Char('-')).0 == s,
{
}

/// Switching actuator stops the motor: the speed drops to zero, a
/// `SetSpeed(0)` goes to the actuator that was selected before, and only then
/// does the selection move to the other actuator.
pub proof fn lemma_switch_stops_previous_actuator(s: App)
    requires
        s.wf(),
    ensures
        step(s, Key::Char('a')).0.speed == 0,
        step(s, Key::Char('a')).1 == Reaction::Send(ActuatorCommand::SetSpeed(0, s.actuator)),
        step(s, Key::Char('a')).0.actuator != s.actuator,
        step(s, Key::Char('a')).0.status == Status::Switched(step(s, Key::Char('a')).0.actuator),
{
}

} // verus!
