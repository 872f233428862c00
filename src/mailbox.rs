use vstd::prelude::*;

verus! {

/// The slot after publishing `v` into `slot`: the new value replaces any other.
pub open spec fn after_publish<T>(slot: Option<T>, v: T) -> Option<T> {
    Some(v)
}

/// What a take from `slot` returns.
pub open spec fn taken<T>(slot: Option<T>) -> Option<T> {
    slot
}

/// The slot after a take: always empty.
pub open spec fn after_take<T>(slot: Option<T>) -> Option<T> {
    None
}

/// Single-slot hand-off cell between a producer and a consumer.
/// At most one value is pending; a new value overwrites an unread one.
pub struct Mailbox<T> {
    slot: Option<T>,
}

impl<T> Mailbox<T> {
    /// The pending value, if any.
    pub closed spec fn view(&self) -> Option<T> {
        self.slot
    }

    /// An empty mailbox.
    pub fn new() -> (r: Mailbox<T>)
        ensures
            r@ == None::<T>,
    {
        Mailbox { slot: None }
    }

    /// Stores `v`, discarding any value that was not taken.
    pub fn publish(&mut self, v: T)
        ensures
            final(self)@ == after_publish(old(self)@, v),
    {
        self.slot = Some(v);
    }

    /// Removes and returns the pending value, leaving the mailbox empty.
    pub fn take(&mut self) -> (r: Option<T>)
        ensures
            r == taken(old(self)@),
            final(self)@ == after_take(old(self)@),
    {
        self.slot.take()
    }

    /// Whether a value is pending.
    pub fn is_pending(&self) -> (r: bool)
        ensures
            r == self@.is_some(),
    {
        self.slot.is_some()
    }
}

/// Publishing `a` then `b` with no take between leaves `b` for exactly one
/// take; an immediate second take finds the mailbox empty.
pub proof fn lemma_latest_wins<T>(slot: Option<T>, a: T, b: T)
    ensures
        ({
            let full = after_publish(after_publish(slot, a), b);
            &&& taken(full) == Some(b)
            &&& taken(after_take(full)) == None::<T>
        }),
{
}

} // verus!
