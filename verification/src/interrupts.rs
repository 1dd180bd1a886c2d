use vstd::prelude::*;

verus! {

/// What the processor needs from the logic that raises interrupts.
pub trait InterruptController {
    /// Triggered by the RESET instruction.
    fn reset_external_devices(&mut self);

    /// The priority (1..7) of the most urgent pending request, 0 if none.
    fn highest_priority(&self) -> u8;

    /// Acknowledges the request of `priority`; gives the vector to use,
    /// or `None` for a spurious interrupt.
    fn acknowledge_interrupt(&mut self, priority: u8) -> Option<u8>
        requires
            1 <= priority <= 8,
    ;
}

pub const UNINITIALIZED_INTERRUPT: u8 = 0x0F;
pub const SPURIOUS_INTERRUPT: u8 = 0x18;
pub const AUTOVECTOR_BASE: u8 = 0x18;

/// The number of the highest set bit of `level`, counting from 1; 0 when
/// no bit is set.
pub open spec fn top_level(level: u8) -> u8 {
    if level >= 0x80 {
        8
    } else if level >= 0x40 {
        7
    } else if level >= 0x20 {
        6
    } else if level >= 0x10 {
        5
    } else if level >= 0x08 {
        4
    } else if level >= 0x04 {
        3
    } else if level >= 0x02 {
        2
    } else if level >= 0x01 {
        1
    } else {
        0
    }
}

/// An interrupt controller that autovectors every request: bit n-1 of
/// `level` is set while a request of priority n is pending.
pub struct AutoInterruptController {
    level: u8,
}

impl AutoInterruptController {
    /// The pending requests, one bit per priority.
    pub closed spec fn pending(&self) -> u8 {
        self.level
    }

    pub fn new() -> (c: AutoInterruptController)
        ensures
            c.pending() == 0,
    {
        AutoInterruptController { level: 0 }
    }

    /// Records a request of priority `irq` and gives back the pending set.
    pub fn request_interrupt(&mut self, irq: u8) -> (r: u8)
        requires
            0 < irq < 8,
        ensures
            final(self).pending() == old(self).pending() | (1u8 << ((irq - 1) as u8)),
            r == final(self).pending(),
    {
        self.level = self.level | (1u8 << (irq - 1));
        self.level
    }
}

proof fn lemma_level_bits(level: u8, s: u8)
    by (bit_vector)
    ensures
        ((level >> s) & 1u8 != 0u8) ==> level >= (1u8 << s),
        s < 7 ==> (level >> ((s + 1) as u8) == 0 ==> level < (1u8 << ((s + 1) as u8))),
        1u8 << 0u8 == 1 && 1u8 << 1u8 == 2 && 1u8 << 2u8 == 4 && 1u8 << 3u8 == 8 && 1u8 << 4u8 == 16
            && 1u8 << 5u8 == 32 && 1u8 << 6u8 == 64 && 1u8 << 7u8 == 128,
{
}

pub proof fn lemma_top_level(level: u8)
    ensures
        top_level(level) == 8 - vstd::std_specs::bits::u8_leading_zeros(level),
{
    vstd::std_specs::bits::axiom_u8_leading_zeros(level);
    let z = vstd::std_specs::bits::u8_leading_zeros(level);
    if z < 8 {
        let s = (7 - z) as u8;
        assert((level >> s) & 1u8 != 0u8);
        assert(z > 0 ==> level >> (8 - z) as u8 == 0);
        lemma_level_bits(level, s);
    }
}

impl InterruptController for AutoInterruptController {
    /// Any external device reset also drops its interrupt request.
    fn reset_external_devices(&mut self)
        ensures
            final(self).pending() == 0,
    {
        self.level = 0;
    }

    fn highest_priority(&self) -> (r: u8)
        ensures
            r == top_level(self.pending()),
    {
        proof {
            lemma_top_level(self.level);
            vstd::std_specs::bits::axiom_u8_leading_zeros(self.level);
        }
        (8 - self.level.leading_zeros()) as u8
    }

    fn acknowledge_interrupt(&mut self, priority: u8) -> (r: Option<u8>)
        ensures
            final(self).pending() == old(self).pending() & !(1u8 << ((priority - 1) as u8)),
            r == Some((AUTOVECTOR_BASE + priority) as u8),
    {
        self.level = self.level & !(1u8 << (priority - 1));
        Some(AUTOVECTOR_BASE + priority)
    }
}

} // verus!
