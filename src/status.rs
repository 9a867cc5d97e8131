//! The status line shown to the operator: what the last dispatched command
//! did, or why it failed.

use vstd::prelude::*;
use crate::protocol::{Actuator, Direction};

verus! {

/// The outcome last reported to the operator.
#[derive(Clone, Debug, PartialEq, Eq)]
pub enum Status {
    /// Nothing has happened yet.
    Ready,
    /// A `SetSpeed` command was written to the serial link.
    SpeedSet(u16),
    /// A `SetDirection` command was written to the serial link.
    DirectionSet(Direction),
    /// Writing a command failed; the text describes the I/O error.
    SerialError(String),
    /// The operator switched to another actuator.
    Switched(Actuator),
}

/// The decimal digit character of `d`.
pub open spec fn digit_char(d: nat) -> char
    recommends
        d < 10,
{
    ((d + 48) as u8) as char
}

/// The decimal notation of `n`, without leading zeros.
pub open spec fn decimal(n: nat) -> Seq<char>
    decreases n,
{
    if n < 10 {
        seq![digit_char(n)]
    } else {
        decimal(n / 10).push(digit_char(n % 10))
    }
}

/// The name under which an actuator is shown.
pub open spec fn actuator_name(a: Actuator) -> Seq<char> {
    match a {
        Actuator::M1 => "M1"@,
        Actuator::M2 => "M2"@,
    }
}

/// The word under which a direction is reported.
pub open spec fn direction_word(d: Direction) -> Seq<char> {
    match d {
        Direction::Forward => "forward"@,
        Direction::Backward => "backward"@,
    }
}

/// The text of a status.
pub open spec fn status_text(s: Status) -> Seq<char> {
    match s {
        Status::Ready => "Ready"@,
        Status::SpeedSet(speed) => "Set speed to "@ + decimal(speed as nat),
        Status::DirectionSet(d) => "Set direction to "@ + direction_word(d),
        Status::SerialError(e) => "Serial error: "@ + e@,
        Status::Switched(a) => "Switched to "@ + actuator_name(a),
    }
}

/// Appends the decimal notation of `n` to `s`.
fn push_decimal(s: &mut String, n: u16)
    ensures
        final(s)@ == old(s)@ + decimal(n as nat),
    decreases n,
{
    let digits = "0123456789";
    proof {
        reveal_strlit("0123456789");
    }
    let d = (n % 10) as usize;
    if n >= 10 {
        push_decimal(s, n / 10);
    }
    let digit = digits.substring_char(d, d + 1);
    assert(digit@ =~= seq![digit_char(d as nat)]);
    s.append(digit);
    assert(final(s)@ =~= old(s)@ + decimal(n as nat));
}

impl Actuator {
    /// The name under which this actuator is shown.
    pub fn name(&self) -> (r: &'static str)
        ensures
            r@ == actuator_name(*self),
    {
        match self {
            Actuator::M1 => "M1",
            Actuator::M2 => "M2",
        }
    }
}

impl Direction {
    /// The word under which this direction is reported.
    pub fn word(&self) -> (r: &'static str)
        ensures
            r@ == direction_word(*self),
    {
        match self {
            Direction::Forward => "forward",
            Direction::Backward => "backward",
        }
    }
}

impl Status {
    /// The text shown for this status.
    pub fn text(&self) -> (r: String)
        ensures
            r@ == status_text(*self),
    {
        match self {
            Status::Ready => String::from_str("Ready"),
            Status::SpeedSet(speed) => {
                let mut r = String::from_str("Set speed to ");
                push_decimal(&mut r, *speed);
                r
            },
            Status::DirectionSet(d) => String::from_str("Set direction to ").concat(d.word()),
            Status::SerialError(e) => String::from_str("Serial error: ").concat(e.as_str()),
            Status::Switched(a) => String::from_str("Switched to ").concat(a.name()),
        }
    }
}

} // verus!
