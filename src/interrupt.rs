//! The interrupt controller: which interrupt is serviced, and how.
use vstd::prelude::*;
use crate::alu::reset_bit;
use crate::cpu::{Cpu, CpuError};
use crate::memory::IE_ADDR;

verus! {

/// Address of the pending-interrupt flags in the I/O block.
pub const IF_ADDR: u16 = 0xFF0F;

/// The lowest set bit of a non-zero interrupt mask.
pub open spec fn lowest_bit(p: u8) -> u8 {
    if p & 1 != 0 {
        0
    } else if p & 2 != 0 {
        1
    } else if p & 4 != 0 {
        2
    } else if p & 8 != 0 {
        3
    } else {
        4
    }
}

/// The address that servicing interrupt `i` jumps to.
pub open spec fn vector(i: u8) -> u16 {
    (0x40 + 8 * i) as u16
}

impl Cpu {
    /// The interrupts that are both enabled and pending, of the five sources.
    pub open spec fn pending_spec(self) -> u8 {
        self.bus_spec().read_spec(IE_ADDR) & self.bus_spec().read_spec(IF_ADDR) & 0x1F
    }

    /// `next` is this processor after servicing the lowest pending interrupt:
    /// processor interrupts disabled, PC pushed, the interrupt's pending bit
    /// cleared and PC at its vector.
    pub open spec fn dispatched(self, next: Cpu) -> bool {
        let i = lowest_bit(self.pending_spec());
        let flags = self.bus_spec().read_spec(IF_ADDR) & !(1u8 << i);
        exists|s: Cpu|
            {
                &&& #[trigger] self.with_ime(false).pushed(s, self.pc_spec())
                &&& s.bus_spec().wrote(next.bus_spec(), IF_ADDR, flags)
                &&& next == s.with_bus(next.bus_spec()).with_pc(vector(i))
            }
    }

    /// Set bit `bit` of the pending-interrupt flags, as a peripheral does to
    /// signal an event.
    pub fn raise_interrupt(&mut self, bit: u8)
        requires
            old(self).wf(),
            bit < 8,
        ensures
            final(self).wf(),
            old(self).bus_spec().wrote(
                final(self).bus_spec(),
                IF_ADDR,
                old(self).bus_spec().read_spec(IF_ADDR) | (1u8 << bit),
            ),
            *final(self) == old(self).with_bus(final(self).bus_spec()),
    {
        let f = self.bus.get_address(IF_ADDR);
        self.bus.write_byte(IF_ADDR, f | (1u8 << bit));
    }

    /// Service the lowest pending interrupt.
    #[verifier::rlimit(40)]
    pub(crate) fn dispatch_interrupt(&mut self) -> (r: u32)
        requires
            old(self).wf(),
        ensures
            final(self).wf(),
            old(self).dispatched(*final(self)),
            r == 20,
    {
        let pending = self.bus.get_address(IE_ADDR) & self.bus.get_address(IF_ADDR) & 0x1F;
        let i: u8 = if pending & 1 != 0 {
            0
        } else if pending & 2 != 0 {
            1
        } else if pending & 4 != 0 {
            2
        } else if pending & 8 != 0 {
            3
        } else {
            4
        };
        let flags = self.bus.get_address(IF_ADDR);
        self.ime = false;
        let pc = self.pc;
        self.push_word(pc);
        let ghost s = *self;
        self.bus.write_byte(IF_ADDR, reset_bit(flags, i));
        self.pc = 0x40 + 8 * i as u16;
        assert(old(self).with_ime(false).pushed(s, old(self).pc_spec()));
        20
    }
}

/// A halted processor with no enabled interrupt pending only waits: a step
/// takes four cycles and changes nothing, PC and every register included.
pub proof fn lemma_halt_waits(cpu: Cpu, next: Cpu, r: Result<u32, CpuError>)
    requires
        cpu.halted_spec(),
        cpu.pending_spec() == 0,
        cpu.step_post(next, r),
    ensures
        next == cpu,
        r == Ok::<u32, CpuError>(4),
{
}

/// A pending interrupt wakes a halted processor even while interrupts are
/// disabled at the processor: the step is the one the processor would take
/// if it were not halted, which services the interrupt only if enabled.
pub proof fn lemma_halt_wakes(cpu: Cpu, next: Cpu, r: Result<u32, CpuError>)
    requires
        cpu.halted_spec(),
        cpu.pending_spec() != 0,
    ensures
        cpu.step_post(next, r) == cpu.with_halted(false).step_post(next, r),
{
    assert(cpu.with_halted(false).with_halted(false) == cpu.with_halted(false));
}

} // verus!
