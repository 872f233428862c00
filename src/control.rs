use vstd::prelude::*;
use crate::command::{qualifies, Command};
use crate::mailbox::Mailbox;
use crate::servo::{toggled, Servo, SERVO_MAX, SERVO_MIN};

verus! {

/// Hold time after a toggle before the servo returns to rest, in milliseconds.
pub const SETTLE_MS: u32 = 1000;

/// Pause at the end of each poll of the mailbox, in milliseconds.
pub const POLL_INTERVAL_MS: u32 = 100;

/// What one poll of the command mailbox decided.
#[derive(Clone, Copy, Debug, PartialEq, Eq, Structural)]
pub enum Poll {
    /// No command was pending.
    Empty,
    /// A command was taken and filtered out; the servo did not move.
    Ignored(Command),
    /// A command was taken and the servo toggled to `moved_to`. The caller
    /// writes `moved_to` to the compare register, holds for `SETTLE_MS`, then
    /// calls `return_to_rest`.
    Toggled { cmd: Command, moved_to: u16 },
}

/// The decision for a pending slot `slot` with the servo at `pos`.
pub open spec fn poll_result(slot: Option<Command>, pos: u16) -> Poll {
    match slot {
        None => Poll::Empty,
        Some(c) => if qualifies(c) {
            Poll::Toggled { cmd: c, moved_to: toggled(pos) }
        } else {
            Poll::Ignored(c)
        },
    }
}

/// The servo position after a poll that decided `p`, from `pos`.
pub open spec fn pos_after_poll(p: Poll, pos: u16) -> u16 {
    match p {
        Poll::Toggled { moved_to, .. } => moved_to,
        _ => pos,
    }
}

/// One poll of the control loop: takes the pending command, and toggles the
/// servo only for a fresh, non-no-op button press.
pub fn poll(mailbox: &mut Mailbox<Command>, servo: &mut Servo) -> (r: Poll)
    ensures
        r == poll_result(old(mailbox)@, old(servo)@),
        final(mailbox)@ == None::<Command>,
        final(servo)@ == pos_after_poll(r, old(servo)@),
        old(servo).wf() ==> final(servo).wf(),
{
    match mailbox.take() {
        None => Poll::Empty,
        Some(cmd) => {
            if cmd.is_actionable() {
                let moved_to = servo.toggle();
                Poll::Toggled { cmd, moved_to }
            } else {
                Poll::Ignored(cmd)
            }
        },
    }
}

/// The servo position after a return to rest from `pos`.
pub open spec fn after_rest(pos: u16) -> u16 {
    SERVO_MIN
}

/// Ends a settle sequence: commands the rest position and returns the compare
/// register value.
pub fn return_to_rest(servo: &mut Servo) -> (r: u16)
    ensures
        final(servo)@ == after_rest(old(servo)@),
        r == final(servo)@,
        final(servo).wf(),
{
    servo.set_pos(SERVO_MIN)
}

/// One full iteration from the servo at `pos` with `slot` pending: the poll's
/// decision and the position the iteration ends at (after the return to rest
/// when the servo was toggled).
pub open spec fn cycle(slot: Option<Command>, pos: u16) -> (Poll, u16) {
    let p = poll_result(slot, pos);
    if p is Toggled {
        (p, after_rest(pos_after_poll(p, pos)))
    } else {
        (p, pos_after_poll(p, pos))
    }
}

/// A poll toggles the servo exactly when the pending command is a fresh
/// press with a non-zero code; repeats, the no-op code and an empty mailbox
/// leave the servo where it was.
pub proof fn lemma_command_filtering(c: Command, pos: u16)
    ensures
        c.is_repeat ==> poll_result(Some(c), pos) == Poll::Ignored(c),
        c.command == 0 ==> poll_result(Some(c), pos) == Poll::Ignored(c),
        !c.is_repeat && c.command != 0 ==> poll_result(Some(c), pos) == (Poll::Toggled { cmd: c, moved_to: toggled(pos) }),
        !(poll_result(Some(c), pos) is Toggled) ==> pos_after_poll(poll_result(Some(c), pos), pos) == pos,
        poll_result(None, pos) == Poll::Empty,
{
}

/// Two qualifying commands handled one after the other, from the servo at
/// `SERVO_MIN`: each iteration toggles once to `SERVO_MAX` and ends, after
/// its return to rest, at `SERVO_MIN`.
pub proof fn lemma_settle_cycles(a: Command, b: Command)
    requires
        qualifies(a),
        qualifies(b),
    ensures
        ({
            let (first, end1) = cycle(Some(a), SERVO_MIN);
            let (second, end2) = cycle(Some(b), end1);
            &&& first == (Poll::Toggled { cmd: a, moved_to: SERVO_MAX })
            &&& end1 == SERVO_MIN
            &&& second == (Poll::Toggled { cmd: b, moved_to: SERVO_MAX })
            &&& end2 == SERVO_MIN
        }),
{
}

} // verus!
