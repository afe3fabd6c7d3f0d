use vstd::prelude::*;

verus! {

/// The status byte as a trace renders it: bit 5 always reads as 1 and the
/// Break bit is suppressed.
pub open spec fn spec_trace_status(data: u8) -> u8 {
    (data | 0x20) & !0x10
}

/// One per-instruction trace snapshot: the address and opcode about to
/// execute, the register file, and the cycle count, for comparison against
/// reference logs.
#[derive(Debug, Clone, Copy, PartialEq, Eq, Structural)]
pub struct CpuState {
    pub addr: u16,
    pub opcode: u8,
    pub a: u8,
    pub x: u8,
    pub y: u8,
    pub p: u8,
    pub sp: u8,
    pub cycles: u64,
}

impl Default for CpuState {
    fn default() -> (r: Self)
        ensures
            r == (CpuState { addr: 0, opcode: 0, a: 0, x: 0, y: 0, p: 0, sp: 0, cycles: 0 }),
    {
        CpuState { addr: 0, opcode: 0, a: 0, x: 0, y: 0, p: 0, sp: 0, cycles: 0 }
    }
}

impl CpuState {
    /// Renders the snapshot as one fixed-shape line. Relies on std's
    /// format! macro for the hexadecimal and decimal formatting.
    #[verifier::external_body]
    pub fn render(&self) -> String {
        format!(
            "Address={:#x}\tOpcode={:#x}\tA:{:#x}\tX:{:#x}\tY:{:#x}\tP:{:#x}\tSP:{:#x}\tCycles:{}",
            self.addr, self.opcode, self.a, self.x, self.y, self.p, self.sp, self.cycles
        )
    }

    /// Stores `data` as the status field, rendered as reference traces
    /// expect it: bit 5 forced to 1, the Break bit forced to 0.
    pub fn set_status(&mut self, data: u8)
        ensures
            *final(self) == (CpuState { p: spec_trace_status(data), ..*old(self) }),
    {
        self.p = (data | 0x20) & !0x10
    }
}

} // verus!
