use vstd::prelude::*;

verus! {

/// One decoded remote-control transmission.
#[derive(Clone, Copy, Debug, PartialEq, Eq, Structural)]
pub struct Command {
    pub address: u8,
    pub command: u8,
    pub is_repeat: bool,
}

/// The command code that stands for "no button".
pub const NO_OP_COMMAND: u8 = 0;

/// Whether `c` is a fresh button press that the actuator answers: not a
/// repeat frame and not the no-op code.
pub open spec fn qualifies(c: Command) -> bool {
    !c.is_repeat && c.command != NO_OP_COMMAND
}

impl Command {
    /// A command record.
    pub fn new(address: u8, command: u8, is_repeat: bool) -> (r: Command)
        ensures
            r == (Command { address, command, is_repeat }),
    {
        Command { address, command, is_repeat }
    }

    /// Whether the actuator answers this command.
    pub fn is_actionable(&self) -> (r: bool)
        ensures
            r == qualifies(*self),
    {
        !self.is_repeat && self.command != NO_OP_COMMAND
    }
}

} // verus!
