use vstd::prelude::*;

verus! {

/// Compare value for a 0.5 ms pulse: the rest position.
pub const SERVO_MIN: u16 = 125;

/// Compare value for a 2.5 ms pulse: the far end.
pub const SERVO_MAX: u16 = 625;

/// Compare value for a 1.5 ms pulse: the threshold that `toggle` decides by.
pub const SERVO_MID: u16 = 375;

/// Whether `p` is a legal compare value.
pub open spec fn in_range(p: u16) -> bool {
    SERVO_MIN <= p && p <= SERVO_MAX
}

/// The position that a toggle from `p` commands.
pub open spec fn toggled(p: u16) -> u16 {
    if p <= SERVO_MID {
        SERVO_MAX
    } else {
        SERVO_MIN
    }
}

/// Commanded servo position. Each operation that moves the servo returns the
/// value to write to the PWM compare register, which always equals the stored
/// position.
pub struct Servo {
    pos: u16,
}

impl Servo {
    /// The commanded position.
    pub closed spec fn view(&self) -> u16 {
        self.pos
    }

    /// The position stays within `[SERVO_MIN, SERVO_MAX]`.
    pub open spec fn wf(&self) -> bool {
        in_range(self@)
    }

    /// A servo at rest, as after boot.
    pub fn new() -> (r: Servo)
        ensures
            r@ == SERVO_MIN,
            r.wf(),
    {
        Servo { pos: SERVO_MIN }
    }

    /// Commands position `pos`; returns the compare register value.
    pub fn set_pos(&mut self, pos: u16) -> (r: u16)
        requires
            in_range(pos),
        ensures
            final(self)@ == pos,
            r == final(self)@,
            final(self).wf(),
    {
        self.pos = pos;
        pos
    }

    /// The commanded position.
    pub fn get_pos(&self) -> (r: u16)
        ensures
            r == self@,
    {
        self.pos
    }

    /// Moves to `SERVO_MAX` from at or below `SERVO_MID`, else to `SERVO_MIN`;
    /// returns the new position, which is also the compare register value.
    pub fn toggle(&mut self) -> (r: u16)
        ensures
            r == toggled(old(self)@),
            final(self)@ == r,
            final(self).wf(),
    {
        let curr_pos = self.get_pos();
        let new_pos = if curr_pos <= SERVO_MID {
            SERVO_MAX
        } else {
            SERVO_MIN
        };
        self.set_pos(new_pos)
    }
}

/// A toggle from at or below the midpoint commands `SERVO_MAX`, from above it
/// `SERVO_MIN`; either way the result is a legal position.
pub proof fn lemma_toggle_threshold(p: u16)
    ensures
        p <= SERVO_MID ==> toggled(p) == SERVO_MAX,
        p > SERVO_MID ==> toggled(p) == SERVO_MIN,
        in_range(toggled(p)),
{
}

} // verus!
