use vstd::prelude::*;

verus! {

/// Number of distinct counter values: the counter is a `u32` that wraps.
pub open spec fn counter_modulus() -> int {
    0x1_0000_0000
}

/// The counter value after one tick from `v`.
pub open spec fn ticked(v: u32) -> u32 {
    ((v as int + 1) % counter_modulus()) as u32
}

/// The counter value after `n` ticks from `v`, one tick at a time.
pub open spec fn ticked_n(v: u32, n: nat) -> u32
    decreases n,
{
    if n == 0 {
        v
    } else {
        ticked(ticked_n(v, (n - 1) as nat))
    }
}

/// Free-running tick counter, advanced by a periodic timer interrupt.
pub struct Clock {
    cntr: u32,
}

impl Clock {
    /// Tick rate of the counter in hertz: one tick every 50 microseconds.
    pub const FREQ: u32 = 20_000;

    /// Compare value of the 8-bit timer: counts 0 to 99, 100 counts per tick.
    pub const TOP: u8 = 99;

    /// The current counter value.
    pub closed spec fn view(&self) -> u32 {
        self.cntr
    }

    /// A clock at zero, as after boot.
    pub fn new() -> (r: Clock)
        ensures
            r@ == 0,
    {
        Clock { cntr: 0 }
    }

    /// A clock whose counter starts at `v`.
    pub fn from_count(v: u32) -> (r: Clock)
        ensures
            r@ == v,
    {
        Clock { cntr: v }
    }

    /// Reads the counter.
    pub fn now(&self) -> (r: u32)
        ensures
            r == self@,
    {
        self.cntr
    }

    /// Advances the counter by one, wrapping to zero after `u32::MAX`.
    pub fn tick(&mut self)
        ensures
            final(self)@ == ticked(old(self)@),
    {
        self.cntr = self.cntr.wrapping_add(1);
    }
}

/// After `n` ticks from `v` the counter reads `(v + n) mod 2^32`.
pub proof fn lemma_ticks_wrap(v: u32, n: nat)
    ensures
        ticked_n(v, n) as int == (v as int + n) % counter_modulus(),
    decreases n,
{
    if n > 0 {
        lemma_ticks_wrap(v, (n - 1) as nat);
        let m = counter_modulus();
        let prev = (v as int + (n - 1)) % m;
        assert(((prev + 1) % m) == ((v as int + n) % m)) by {
            vstd::arithmetic::div_mod::lemma_add_mod_noop(v as int + (n - 1), 1, m);
            vstd::arithmetic::div_mod::lemma_mod_self_0(m);
        };
    }
}

} // verus!
