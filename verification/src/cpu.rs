use vstd::prelude::*;

use crate::bus::Bus;
use crate::bus::BusV;
use crate::bus::spec_bus_read;
use crate::bus::spec_bus_wf;
use crate::bus::spec_bus_write;
use crate::cartridge::Cartridge;
use crate::cartridge::Mirroring;
use crate::debug::CpuState;
use crate::debug::spec_trace_status;
use crate::ppubus::PpuBusV;
use crate::ppu::PpuV;
use crate::utils::as_lo_hi;
use crate::utils::get_bit;
use crate::utils::join_hi_low;
use crate::utils::msb;
use crate::utils::spec_get_bit;
use crate::utils::spec_hi;
use crate::utils::spec_join_hi_low;
use crate::utils::spec_lo;
use crate::utils::spec_msb;
use crate::utils::spec_set_bit;
use crate::errors::EmuError;

verus! {

// Bit positions (0-indexed) in the processor status register.
pub const CARRY_BIT: u8 = 0;

pub const ZERO_BIT: u8 = 1;

pub const INTERRUPT_DISABLE_BIT: u8 = 2;

pub const DECIMAL_BIT: u8 = 3;

pub const BREAK_BIT: u8 = 4;

pub const OVERFLOW_BIT: u8 = 6;

pub const NEGATIVE_BIT: u8 = 7;

// Fixed interrupt-handler vectors.
pub const NON_MASKABLE_IH: u16 = 0xfffa;

pub const POWER_RESET_IH: u16 = 0xfffc;

pub const BRK_IH: u16 = 0xfffe;

/// Ghost view of the processor: the register file, the cycle counter, the
/// per-instruction stack-traffic counters, and the whole bus behind it.
#[verifier::ext_equal]
pub ghost struct CpuV {
    pub pc: u16,
    pub sp: u8,
    pub accum: u8,
    pub rx: u8,
    pub ry: u8,
    pub st: u8,
    pub cycles: u64,
    pub pushes: u8,
    pub pops: u8,
    pub bus: BusV,
}

pub open spec fn spec_cpu_wf(c: CpuV) -> bool {
    spec_bus_wf(c.bus)
}

/// The status register after the Zero and Negative flags are recomputed
/// from `v`, in that order.
pub open spec fn spec_zn(st: u8, v: u8) -> u8 {
    spec_set_bit(spec_set_bit(st, ZERO_BIT, v == 0), NEGATIVE_BIT, spec_msb(v) == 1)
}

/// A bus read threaded through the processor view.
pub open spec fn spec_cpu_read(c: CpuV, addr: u16) -> (CpuV, Result<u8, EmuError>) {
    let (b2, r) = spec_bus_read(c.bus, addr);
    (CpuV { bus: b2, ..c }, r)
}

/// A bus write threaded through the processor view.
pub open spec fn spec_cpu_write(c: CpuV, addr: u16, v: u8) -> (CpuV, Result<(), EmuError>) {
    let (b2, r) = spec_bus_write(c.bus, addr, v);
    (CpuV { bus: b2, ..c }, r)
}

/// The byte behind an address whose read cannot fault or disturb the
/// machine (internal RAM and ROM).
pub open spec fn spec_read_val(c: CpuV, addr: u16) -> u8 {
    match spec_bus_read(c.bus, addr).1 {
        Ok(v) => v,
        Err(_) => 0,
    }
}

/// A push: the byte lands in the fixed stack page at the stack pointer,
/// which then moves down by one, wrapping within the page.
pub open spec fn spec_push(c: CpuV, byte: u8) -> CpuV {
    let addr = (0x100 + c.sp as int) as u16;
    let (b2, _r) = spec_bus_write(c.bus, addr, byte);
    CpuV { bus: b2, sp: c.sp.wrapping_sub(1), pushes: c.pushes.wrapping_add(1), ..c }
}

/// A pop: the stack pointer moves up by one, wrapping within the page, and
/// the byte under it is returned.
pub open spec fn spec_pop(c: CpuV) -> (CpuV, u8) {
    let sp2 = c.sp.wrapping_add(1);
    let addr = (0x100 + sp2 as int) as u16;
    (
        CpuV { sp: sp2, pops: c.pops.wrapping_add(1), ..c },
        spec_read_val(c, addr),
    )
}

// Addressing-mode fetches. Each computes the operand value and effective
// address and advances the program counter past the instruction; a faulted
// bus read stops it where it stands.
pub open spec fn spec_immediate(c: CpuV) -> (CpuV, Result<u8, EmuError>) {
    let (c1, r) = spec_cpu_read(c, c.pc.wrapping_add(1));
    match r {
        Ok(v) => (CpuV { pc: c.pc.wrapping_add(2), ..c1 }, Ok(v)),
        Err(e) => (c1, Err(e)),
    }
}

pub open spec fn spec_zero_page(c: CpuV) -> (CpuV, Result<(u8, u16), EmuError>) {
    let (c1, r1) = spec_cpu_read(c, c.pc.wrapping_add(1));
    match r1 {
        Err(e) => (c1, Err(e)),
        Ok(a) => {
            let addr = a as u16;
            let (c2, r2) = spec_cpu_read(c1, addr);
            match r2 {
                Err(e) => (c2, Err(e)),
                Ok(v) => (CpuV { pc: c.pc.wrapping_add(2), ..c2 }, Ok((v, addr))),
            }
        },
    }
}

pub open spec fn spec_zero_page_idx(c: CpuV, idx: u8) -> (CpuV, Result<(u8, u16), EmuError>) {
    let (c1, r1) = spec_cpu_read(c, c.pc.wrapping_add(1));
    match r1 {
        Err(e) => (c1, Err(e)),
        Ok(arg) => {
            let addr = arg.wrapping_add(idx) as u16;
            let (c2, r2) = spec_cpu_read(c1, addr);
            match r2 {
                Err(e) => (c2, Err(e)),
                Ok(v) => (CpuV { pc: c.pc.wrapping_add(2), ..c2 }, Ok((v, addr))),
            }
        },
    }
}

pub open spec fn spec_absolute_idx(c: CpuV, idx: u8) -> (CpuV, Result<(u8, u16), EmuError>) {
    let (c1, r1) = spec_cpu_read(c, c.pc.wrapping_add(1));
    match r1 {
        Err(e) => (c1, Err(e)),
        Ok(lo) => {
            let (c2, r2) = spec_cpu_read(c1, c.pc.wrapping_add(2));
            match r2 {
                Err(e) => (c2, Err(e)),
                Ok(hi) => {
                    let addr = spec_join_hi_low(lo, hi).wrapping_add(idx as u16);
                    let (c3, r3) = spec_cpu_read(c2, addr);
                    match r3 {
                        Err(e) => (c3, Err(e)),
                        Ok(v) => (CpuV { pc: c.pc.wrapping_add(3), ..c3 }, Ok((v, addr))),
                    }
                },
            }
        },
    }
}

pub open spec fn spec_indirect_x(c: CpuV) -> (CpuV, Result<(u8, u16), EmuError>) {
    let (c1, r1) = spec_cpu_read(c, c.pc.wrapping_add(1));
    match r1 {
        Err(e) => (c1, Err(e)),
        Ok(arg) => {
            let (c2, r2) = spec_cpu_read(c1, arg.wrapping_add(c.rx) as u16);
            match r2 {
                Err(e) => (c2, Err(e)),
                Ok(lo) => {
                    let (c3, r3) = spec_cpu_read(c2, arg.wrapping_add(c.rx.wrapping_add(1)) as u16);
                    match r3 {
                        Err(e) => (c3, Err(e)),
                        Ok(hi) => {
                            let addr = spec_join_hi_low(lo, hi);
                            let (c4, r4) = spec_cpu_read(c3, addr);
                            match r4 {
                                Err(e) => (c4, Err(e)),
                                Ok(v) => (CpuV { pc: c.pc.wrapping_add(2), ..c4 }, Ok((v, addr))),
                            }
                        },
                    }
                },
            }
        },
    }
}

pub open spec fn spec_indirect_y(c: CpuV) -> (CpuV, Result<(u8, u16), EmuError>) {
    let (c1, r1) = spec_cpu_read(c, c.pc.wrapping_add(1));
    match r1 {
        Err(e) => (c1, Err(e)),
        Ok(arg) => {
            let (c2, r2) = spec_cpu_read(c1, arg as u16);
            match r2 {
                Err(e) => (c2, Err(e)),
                Ok(lo) => {
                    let (c3, r3) = spec_cpu_read(c2, arg.wrapping_add(1) as u16);
                    match r3 {
                        Err(e) => (c3, Err(e)),
                        Ok(hi) => {
                            let addr = spec_join_hi_low(lo, hi).wrapping_add(c.ry as u16);
                            let (c4, r4) = spec_cpu_read(c3, addr);
                            match r4 {
                                Err(e) => (c4, Err(e)),
                                Ok(v) => (CpuV { pc: c.pc.wrapping_add(2), ..c4 }, Ok((v, addr))),
                            }
                        },
                    }
                },
            }
        },
    }
}

/// The nine addressing modes by which an instruction names its operand.
#[derive(Clone, Copy, Debug, PartialEq, Eq, Structural)]
pub enum Mode {
    Immediate,
    ZeroPage,
    ZeroPageX,
    ZeroPageY,
    Absolute,
    AbsoluteX,
    AbsoluteY,
    IndirectX,
    IndirectY,
}

/// The operand fetch for a given mode: its value, its effective address
/// (for the immediate mode, the operand's own location), and the program
/// counter advanced past the instruction.
pub open spec fn spec_operand(c: CpuV, mode: Mode) -> (CpuV, Result<(u8, u16), EmuError>) {
    match mode {
        Mode::Immediate => {
            let (c1, r) = spec_immediate(c);
            match r {
                Ok(v) => (c1, Ok((v, c.pc.wrapping_add(1)))),
                Err(e) => (c1, Err(e)),
            }
        },
        Mode::ZeroPage => spec_zero_page(c),
        Mode::ZeroPageX => spec_zero_page_idx(c, c.rx),
        Mode::ZeroPageY => spec_zero_page_idx(c, c.ry),
        Mode::Absolute => spec_absolute_idx(c, 0),
        Mode::AbsoluteX => spec_absolute_idx(c, c.rx),
        Mode::AbsoluteY => spec_absolute_idx(c, c.ry),
        Mode::IndirectX => spec_indirect_x(c),
        Mode::IndirectY => spec_indirect_y(c),
    }
}

// Operations on the register file. Each is exact: the flags named by the
// architecture are recomputed, everything else is untouched.
/// ADC: Carry is set iff the 9-bit sum overflows 0xFF; Overflow iff the
/// operands agree in sign and the result disagrees; Zero and Negative from
/// the wrapped result.
pub open spec fn spec_adc(c: CpuV, v: u8) -> CpuV {
    let next = c.accum as int + v as int + (c.st & 1) as int;
    let wrapped = (next % 256) as u8;
    let overflow = spec_msb(!(c.accum ^ v) & (c.accum ^ wrapped));
    let st1 = spec_set_bit(c.st, OVERFLOW_BIT, overflow == 1);
    let st2 = spec_set_bit(st1, CARRY_BIT, next > 0xff);
    let st3 = spec_set_bit(st2, ZERO_BIT, wrapped == 0);
    let st4 = spec_set_bit(st3, NEGATIVE_BIT, spec_msb(wrapped) == 1);
    CpuV { accum: wrapped, st: st4, ..c }
}

/// SBC is ADC of the operand's ones-complement: an intentional identity,
/// not a separate formula.
pub open spec fn spec_sbc(c: CpuV, v: u8) -> CpuV {
    spec_adc(c, !v)
}

/// The SBC/ADC identity, stated on its own: subtracting `v` with borrow is
/// exactly adding the ones-complement of `v` with carry.
pub proof fn lemma_sbc_is_adc_complement(c: CpuV, v: u8)
    ensures
        spec_sbc(c, v) == spec_adc(c, !v),
{
}

pub open spec fn spec_and(c: CpuV, v: u8) -> CpuV {
    let result = c.accum & v;
    CpuV { accum: result, st: spec_zn(c.st, result), ..c }
}

pub open spec fn spec_eor(c: CpuV, v: u8) -> CpuV {
    let result = c.accum ^ v;
    CpuV { accum: result, st: spec_zn(c.st, result), ..c }
}

pub open spec fn spec_ora(c: CpuV, v: u8) -> CpuV {
    let result = c.accum | v;
    CpuV { accum: result, st: spec_zn(c.st, result), ..c }
}

pub open spec fn spec_lda(c: CpuV, v: u8) -> CpuV {
    CpuV { accum: v, st: spec_zn(c.st, v), ..c }
}

pub open spec fn spec_ldx(c: CpuV, v: u8) -> CpuV {
    CpuV { rx: v, st: spec_zn(c.st, v), ..c }
}

pub open spec fn spec_ldy(c: CpuV, v: u8) -> CpuV {
    CpuV { ry: v, st: spec_zn(c.st, v), ..c }
}

/// A compare: Carry iff the register is at least the operand (unsigned),
/// Zero iff equal, Negative from the wrapping difference's top bit.
pub open spec fn spec_compare(st: u8, reg: u8, v: u8) -> u8 {
    let st1 = spec_set_bit(st, CARRY_BIT, reg >= v);
    let st2 = spec_set_bit(st1, ZERO_BIT, reg == v);
    spec_set_bit(st2, NEGATIVE_BIT, spec_msb(reg.wrapping_sub(v)) == 1)
}

/// BIT: Zero from the accumulator masked by the operand; Overflow and
/// Negative copied from bits 6 and 7 of the operand itself.
pub open spec fn spec_bit_test(c: CpuV, v: u8) -> CpuV {
    let st1 = spec_set_bit(c.st, ZERO_BIT, (c.accum & v) == 0);
    let st2 = spec_set_bit(st1, OVERFLOW_BIT, spec_get_bit(v, 6) == 1);
    let st3 = spec_set_bit(st2, NEGATIVE_BIT, spec_get_bit(v, 7) == 1);
    CpuV { st: st3, ..c }
}

/// ASL: Carry takes the bit shifted out; Zero and Negative from the new
/// value.
pub open spec fn spec_asl(c: CpuV, v: u8) -> (CpuV, u8) {
    let next = v << 1;
    let st1 = spec_set_bit(c.st, CARRY_BIT, spec_msb(v) == 1);
    let st2 = spec_set_bit(st1, NEGATIVE_BIT, spec_msb(next) == 1);
    let st3 = spec_set_bit(st2, ZERO_BIT, next == 0);
    (CpuV { st: st3, ..c }, next)
}

/// LSR: Carry takes the bit shifted out; Zero and Negative from the new
/// value.
pub open spec fn spec_lsr(c: CpuV, v: u8) -> (CpuV, u8) {
    let result = v >> 1;
    let st1 = spec_set_bit(c.st, CARRY_BIT, (v & 1) == 1);
    let st2 = spec_set_bit(st1, ZERO_BIT, result == 0);
    let st3 = spec_set_bit(st2, NEGATIVE_BIT, spec_msb(result) == 1);
    (CpuV { st: st3, ..c }, result)
}

/// ROL: the previous Carry folds into bit 0, Carry takes the bit shifted
/// out.
pub open spec fn spec_rol(c: CpuV, v: u8) -> (CpuV, u8) {
    let result = ((v << 1) & 0xfe) | spec_get_bit(c.st, CARRY_BIT);
    let st1 = spec_set_bit(c.st, CARRY_BIT, spec_msb(v) == 1);
    let st2 = spec_set_bit(st1, NEGATIVE_BIT, spec_msb(result) == 1);
    let st3 = spec_set_bit(st2, ZERO_BIT, result == 0);
    (CpuV { st: st3, ..c }, result)
}

/// ROR: the previous Carry folds into bit 7, Carry takes the bit shifted
/// out.
pub open spec fn spec_ror(c: CpuV, v: u8) -> (CpuV, u8) {
    let result = (v >> 1) | (spec_get_bit(c.st, CARRY_BIT) << 7);
    let st1 = spec_set_bit(c.st, CARRY_BIT, (v & 1) == 1);
    let st2 = spec_set_bit(st1, NEGATIVE_BIT, spec_msb(result) == 1);
    let st3 = spec_set_bit(st2, ZERO_BIT, result == 0);
    (CpuV { st: st3, ..c }, result)
}

pub open spec fn spec_dec(c: CpuV, v: u8) -> (CpuV, u8) {
    let result = v.wrapping_sub(1);
    (CpuV { st: spec_zn(c.st, result), ..c }, result)
}

pub open spec fn spec_inc(c: CpuV, v: u8) -> (CpuV, u8) {
    let result = v.wrapping_add(1);
    (CpuV { st: spec_zn(c.st, result), ..c }, result)
}

/// The signed 8-bit branch offset, sign-extended to 16 bits.
pub open spec fn spec_sign_extend(v: u8) -> u16 {
    if v < 0x80 {
        v as u16
    } else {
        (v as u16) | 0xff00
    }
}

/// A branch: the relative operand is always fetched; if status bit `n`
/// equals `expected` the signed offset is added to the program counter
/// after the 2-byte instruction has been consumed.
pub open spec fn spec_branch(c: CpuV, n: u8, expected: u8) -> (CpuV, Result<(), EmuError>) {
    let (c1, r) = spec_cpu_read(c, c.pc.wrapping_add(1));
    match r {
        Err(e) => (c1, Err(e)),
        Ok(arg) => {
            let base = c.pc.wrapping_add(2);
            let target = if spec_get_bit(c.st, n) == expected {
                base.wrapping_add(spec_sign_extend(arg))
            } else {
                base
            };
            (CpuV { pc: target, ..c1 }, Ok(()))
        },
    }
}

/// Loading a cartridge: the program bytes fill the ROM window, the graphics
/// bytes and mirroring mode reach the PPU's bus, and the processor is reset
/// from the image's own reset vector.
pub open spec fn spec_load_cartridge(c: CpuV, prg: Seq<u8>, chr: Seq<u8>, m: Mirroring) -> CpuV {
    let c1 = CpuV {
        bus: BusV {
            rom: prg,
            ppu: PpuV { bus: PpuBusV { chr, mirroring: m, ..c.bus.ppu.bus }, ..c.bus.ppu },
            ..c.bus
        },
        ..c
    };
    CpuV {
        rx: 0,
        ry: 0,
        st: 0,
        pc: spec_join_hi_low(
            spec_read_val(c1, POWER_RESET_IH),
            spec_read_val(c1, (POWER_RESET_IH + 1) as u16),
        ),
        ..c1
    }
}

/// The processor: its register file, cycle counter, per-instruction
/// stack-traffic counters, and the bus it exclusively owns and drives.
pub struct CPU {
    pub pc: u16,
    pub sp: u8,
    pub accum: u8,
    pub rx: u8,
    pub ry: u8,
    pub st: u8,
    pub cycles: u64,
    pub stack_push_count: u8,
    pub stack_pop_count: u8,
    pub bus: Bus,
}

impl View for CPU {
    type V = CpuV;

    open spec fn view(&self) -> CpuV {
        CpuV {
            pc: self.pc,
            sp: self.sp,
            accum: self.accum,
            rx: self.rx,
            ry: self.ry,
            st: self.st,
            cycles: self.cycles,
            pushes: self.stack_push_count,
            pops: self.stack_pop_count,
            bus: self.bus@,
        }
    }
}

impl CPU {
    pub fn new(bus: Bus) -> (r: CPU)
        requires
            spec_bus_wf(bus@),
        ensures
            spec_cpu_wf(r@),
            r@ == (CpuV {
                pc: 0xc000,
                sp: 0xfd,
                accum: 0,
                rx: 0,
                ry: 0,
                st: 0x24,
                cycles: 0,
                pushes: 0,
                pops: 0,
                bus: bus@,
            }),
    {
        CPU {
            pc: 0xc000,
            sp: 0xfd,
            accum: 0,
            rx: 0,
            ry: 0,
            st: 0x24,
            cycles: 0,
            stack_push_count: 0,
            stack_pop_count: 0,
            bus,
        }
    }

    fn read_mem(&mut self, addr: u16) -> (r: Result<u8, EmuError>)
        requires
            spec_cpu_wf(old(self)@),
        ensures
            final(self)@ == spec_cpu_read(old(self)@, addr).0,
            r == spec_cpu_read(old(self)@, addr).1,
            spec_cpu_wf(final(self)@),
    {
        self.bus.read_memory(addr)
    }

    fn write_mem(&mut self, addr: u16, v: u8) -> (r: Result<(), EmuError>)
        requires
            spec_cpu_wf(old(self)@),
        ensures
            final(self)@ == spec_cpu_write(old(self)@, addr, v).0,
            r == spec_cpu_write(old(self)@, addr, v).1,
            spec_cpu_wf(final(self)@),
    {
        self.bus.write_memory(addr, v)
    }

    /// Resets the index registers and status and loads the program counter
    /// from the power-on/reset vector.
    fn reset(&mut self)
        requires
            spec_cpu_wf(old(self)@),
        ensures
            final(self)@ == (CpuV {
                rx: 0,
                ry: 0,
                st: 0,
                pc: spec_join_hi_low(
                    spec_read_val(old(self)@, POWER_RESET_IH),
                    spec_read_val(old(self)@, (POWER_RESET_IH + 1) as u16),
                ),
                ..old(self)@
            }),
            spec_cpu_wf(final(self)@),
    {
        self.rx = 0;
        self.ry = 0;
        self.st = 0;
        let lo = match self.read_mem(POWER_RESET_IH) {
            Ok(v) => v,
            Err(_) => vstd::pervasive::unreached(),
        };
        let hi = match self.read_mem(POWER_RESET_IH + 1) {
            Ok(v) => v,
            Err(_) => vstd::pervasive::unreached(),
        };
        self.pc = join_hi_low(lo, hi)
    }

    /// Loads a parsed cartridge: the program image into the bus's ROM
    /// window, the graphics bank and mirroring mode into the PPU, then a
    /// reset, so the program counter starts at the image's reset vector.
    pub fn load_cartridge(&mut self, cartridge: Cartridge)
        requires
            spec_cpu_wf(old(self)@),
            cartridge.prgrom@.len() == 0x4000 || cartridge.prgrom@.len() == 0x8000,
            cartridge.chrrom@.len() == 0x2000,
        ensures
            final(self)@ == spec_load_cartridge(
                old(self)@,
                cartridge.prgrom@,
                cartridge.chrrom@,
                cartridge.mirroring,
            ),
            spec_cpu_wf(final(self)@),
    {
        self.bus.load_rom(cartridge.prgrom);
        self.bus.ppu.load_chr_rom(cartridge.chrrom, cartridge.mirroring);
        self.reset()
    }

    // Addressing-mode fetches. Each returns the operand (and its effective
    // address) and advances the program counter past the instruction.
    fn immediate(&mut self) -> (r: Result<u8, EmuError>)
        requires
            spec_cpu_wf(old(self)@),
        ensures
            final(self)@ == spec_immediate(old(self)@).0,
            r == spec_immediate(old(self)@).1,
            spec_cpu_wf(final(self)@),
    {
        let result = self.read_mem(self.pc.wrapping_add(1))?;
        self.pc = self.pc.wrapping_add(2);
        Ok(result)
    }

    fn zero_page(&mut self) -> (r: Result<(u8, u16), EmuError>)
        requires
            spec_cpu_wf(old(self)@),
        ensures
            final(self)@ == spec_zero_page(old(self)@).0,
            r == spec_zero_page(old(self)@).1,
            spec_cpu_wf(final(self)@),
    {
        let addr = self.read_mem(self.pc.wrapping_add(1))? as u16;
        let result = self.read_mem(addr)?;
        self.pc = self.pc.wrapping_add(2);
        Ok((result, addr))
    }

    fn zero_page_x(&mut self) -> (r: Result<(u8, u16), EmuError>)
        requires
            spec_cpu_wf(old(self)@),
        ensures
            final(self)@ == spec_zero_page_idx(old(self)@, old(self)@.rx).0,
            r == spec_zero_page_idx(old(self)@, old(self)@.rx).1,
            spec_cpu_wf(final(self)@),
    {
        let arg = self.read_mem(self.pc.wrapping_add(1))?;
        let addr = arg.wrapping_add(self.rx) as u16;
        let result = self.read_mem(addr)?;
        self.pc = self.pc.wrapping_add(2);
        Ok((result, addr))
    }

    fn zero_page_y(&mut self) -> (r: Result<(u8, u16), EmuError>)
        requires
            spec_cpu_wf(old(self)@),
        ensures
            final(self)@ == spec_zero_page_idx(old(self)@, old(self)@.ry).0,
            r == spec_zero_page_idx(old(self)@, old(self)@.ry).1,
            spec_cpu_wf(final(self)@),
    {
        let arg = self.read_mem(self.pc.wrapping_add(1))?;
        let addr = arg.wrapping_add(self.ry) as u16;
        let result = self.read_mem(addr)?;
        self.pc = self.pc.wrapping_add(2);
        Ok((result, addr))
    }

    fn absolute_with(&mut self, idx: u8) -> (r: Result<(u8, u16), EmuError>)
        requires
            spec_cpu_wf(old(self)@),
        ensures
            final(self)@ == spec_absolute_idx(old(self)@, idx).0,
            r == spec_absolute_idx(old(self)@, idx).1,
            spec_cpu_wf(final(self)@),
    {
        let lo = self.read_mem(self.pc.wrapping_add(1))?;
        let hi = self.read_mem(self.pc.wrapping_add(2))?;
        let addr = join_hi_low(lo, hi).wrapping_add(idx as u16);
        let result = self.read_mem(addr)?;
        self.pc = self.pc.wrapping_add(3);
        Ok((result, addr))
    }

    fn absolute(&mut self) -> (r: Result<(u8, u16), EmuError>)
        requires
            spec_cpu_wf(old(self)@),
        ensures
            final(self)@ == spec_absolute_idx(old(self)@, 0).0,
            r == spec_absolute_idx(old(self)@, 0).1,
            spec_cpu_wf(final(self)@),
    {
        self.absolute_with(0)
    }

    fn absolute_x(&mut self) -> (r: Result<(u8, u16), EmuError>)
        requires
            spec_cpu_wf(old(self)@),
        ensures
            final(self)@ == spec_absolute_idx(old(self)@, old(self)@.rx).0,
            r == spec_absolute_idx(old(self)@, old(self)@.rx).1,
            spec_cpu_wf(final(self)@),
    {
        let idx = self.rx;
        self.absolute_with(idx)
    }

    fn absolute_y(&mut self) -> (r: Result<(u8, u16), EmuError>)
        requires
            spec_cpu_wf(old(self)@),
        ensures
            final(self)@ == spec_absolute_idx(old(self)@, old(self)@.ry).0,
            r == spec_absolute_idx(old(self)@, old(self)@.ry).1,
            spec_cpu_wf(final(self)@),
    {
        let idx = self.ry;
        self.absolute_with(idx)
    }

    fn indirect_x(&mut self) -> (r: Result<(u8, u16), EmuError>)
        requires
            spec_cpu_wf(old(self)@),
        ensures
            final(self)@ == spec_indirect_x(old(self)@).0,
            r == spec_indirect_x(old(self)@).1,
            spec_cpu_wf(final(self)@),
    {
        let arg = self.read_mem(self.pc.wrapping_add(1))?;
        let lo = self.read_mem(arg.wrapping_add(self.rx) as u16)?;
        let hi = self.read_mem(arg.wrapping_add(self.rx.wrapping_add(1)) as u16)?;
        let addr = join_hi_low(lo, hi);
        let result = self.read_mem(addr)?;
        self.pc = self.pc.wrapping_add(2);
        Ok((result, addr))
    }

    fn indirect_y(&mut self) -> (r: Result<(u8, u16), EmuError>)
        requires
            spec_cpu_wf(old(self)@),
        ensures
            final(self)@ == spec_indirect_y(old(self)@).0,
            r == spec_indirect_y(old(self)@).1,
            spec_cpu_wf(final(self)@),
    {
        let arg = self.read_mem(self.pc.wrapping_add(1))?;
        let lo = self.read_mem(arg as u16)?;
        let hi = self.read_mem(arg.wrapping_add(1) as u16)?;
        let addr = join_hi_low(lo, hi).wrapping_add(self.ry as u16);
        let result = self.read_mem(addr)?;
        self.pc = self.pc.wrapping_add(2);
        Ok((result, addr))
    }

    /// The operand fetch for `mode`.
    fn operand(&mut self, mode: Mode) -> (r: Result<(u8, u16), EmuError>)
        requires
            spec_cpu_wf(old(self)@),
        ensures
            final(self)@ == spec_operand(old(self)@, mode).0,
            r == spec_operand(old(self)@, mode).1,
            spec_cpu_wf(final(self)@),
    {
        match mode {
            Mode::Immediate => {
                let addr = self.pc.wrapping_add(1);
                let v = self.immediate()?;
                Ok((v, addr))
            },
            Mode::ZeroPage => self.zero_page(),
            Mode::ZeroPageX => self.zero_page_x(),
            Mode::ZeroPageY => self.zero_page_y(),
            Mode::Absolute => self.absolute(),
            Mode::AbsoluteX => self.absolute_x(),
            Mode::AbsoluteY => self.absolute_y(),
            Mode::IndirectX => self.indirect_x(),
            Mode::IndirectY => self.indirect_y(),
        }
    }

    // Operations. Each mirrors its specification exactly.
    fn adc(&mut self, v: u8)
        ensures
            final(self)@ == spec_adc(old(self)@, v),
    {
        let next: u16 = self.accum as u16 + v as u16 + (self.st & 1) as u16;
        let wrapped = (next % 256) as u8;
        let overflow = msb(!(self.accum ^ v) & (self.accum ^ wrapped));
        self.set_st_to(OVERFLOW_BIT, overflow);
        self.cond_set_carry(next > 0xff);
        self.cond_set_zero(wrapped == 0);
        self.cond_set_neg(msb(wrapped) == 1);
        self.accum = wrapped
    }

    fn sbc(&mut self, v: u8)
        ensures
            final(self)@ == spec_sbc(old(self)@, v),
    {
        self.adc(!v)
    }

    fn and(&mut self, v: u8)
        ensures
            final(self)@ == spec_and(old(self)@, v),
    {
        let result = self.accum & v;
        self.cond_set_zero(result == 0);
        self.cond_set_neg(msb(result) == 1);
        self.accum = result
    }

    fn eor(&mut self, v: u8)
        ensures
            final(self)@ == spec_eor(old(self)@, v),
    {
        let result = self.accum ^ v;
        self.cond_set_zero(result == 0);
        self.cond_set_neg(msb(result) == 1);
        self.accum = result
    }

    fn ora(&mut self, v: u8)
        ensures
            final(self)@ == spec_ora(old(self)@, v),
    {
        let result = self.accum | v;
        self.cond_set_zero(result == 0);
        self.cond_set_neg(msb(result) == 1);
        self.accum = result
    }

    fn lda(&mut self, v: u8)
        ensures
            final(self)@ == spec_lda(old(self)@, v),
    {
        self.cond_set_zero(v == 0);
        self.cond_set_neg(msb(v) == 1);
        self.accum = v
    }

    fn ldx(&mut self, v: u8)
        ensures
            final(self)@ == spec_ldx(old(self)@, v),
    {
        self.cond_set_zero(v == 0);
        self.cond_set_neg(msb(v) == 1);
        self.rx = v
    }

    fn ldy(&mut self, v: u8)
        ensures
            final(self)@ == spec_ldy(old(self)@, v),
    {
        self.cond_set_zero(v == 0);
        self.cond_set_neg(msb(v) == 1);
        self.ry = v
    }

    fn cmp(&mut self, v: u8)
        ensures
            final(self)@ == (CpuV { st: spec_compare(old(self)@.st, old(self)@.accum, v), ..old(
                self,
            )@ }),
    {
        self.cond_set_carry(self.accum >= v);
        self.cond_set_zero(self.accum == v);
        let result = self.accum.wrapping_sub(v);
        self.cond_set_neg(msb(result) == 1);
    }

    fn cpx(&mut self, v: u8)
        ensures
            final(self)@ == (CpuV { st: spec_compare(old(self)@.st, old(self)@.rx, v), ..old(
                self,
            )@ }),
    {
        self.cond_set_carry(self.rx >= v);
        self.cond_set_zero(self.rx == v);
        let result = self.rx.wrapping_sub(v);
        self.cond_set_neg(msb(result) == 1);
    }

    fn cpy(&mut self, v: u8)
        ensures
            final(self)@ == (CpuV { st: spec_compare(old(self)@.st, old(self)@.ry, v), ..old(
                self,
            )@ }),
    {
        self.cond_set_carry(self.ry >= v);
        self.cond_set_zero(self.ry == v);
        let result = self.ry.wrapping_sub(v);
        self.cond_set_neg(msb(result) == 1);
    }

    fn bit(&mut self, v: u8)
        ensures
            final(self)@ == spec_bit_test(old(self)@, v),
    {
        self.cond_set_zero(self.accum & v == 0);
        let b6 = get_bit(&v, 6);
        self.set_st_to(OVERFLOW_BIT, b6);
        let b7 = get_bit(&v, 7);
        self.set_st_to(NEGATIVE_BIT, b7)
    }

    fn asl(&mut self, v: u8) -> (r: u8)
        ensures
            final(self)@ == spec_asl(old(self)@, v).0,
            r == spec_asl(old(self)@, v).1,
    {
        self.cond_set_carry(msb(v) == 1);
        let next = v << 1;
        self.cond_set_neg(msb(next) == 1);
        self.cond_set_zero(next == 0);
        next
    }

    fn lsr(&mut self, v: u8) -> (r: u8)
        ensures
            final(self)@ == spec_lsr(old(self)@, v).0,
            r == spec_lsr(old(self)@, v).1,
    {
        proof {
            crate::utils::lemma_u8_mask_bounds();
        }
        self.set_st_to(CARRY_BIT, v & 1);
        let result = v >> 1;
        self.cond_set_zero(result == 0);
        self.cond_set_neg(msb(result) == 1);
        result
    }

    fn rol(&mut self, v: u8) -> (r: u8)
        ensures
            final(self)@ == spec_rol(old(self)@, v).0,
            r == spec_rol(old(self)@, v).1,
    {
        let carry_in = self.get_st(CARRY_BIT);
        let result = ((v << 1) & 0xfe) | carry_in;
        self.set_st_to(CARRY_BIT, msb(v));
        self.cond_set_neg(msb(result) == 1);
        self.cond_set_zero(result == 0);
        result
    }

    fn ror(&mut self, v: u8) -> (r: u8)
        ensures
            final(self)@ == spec_ror(old(self)@, v).0,
            r == spec_ror(old(self)@, v).1,
    {
        proof {
            crate::utils::lemma_u8_mask_bounds();
        }
        let carry_in = self.get_st(CARRY_BIT);
        let result = (v >> 1) | (carry_in << 7);
        self.set_st_to(CARRY_BIT, v & 1);
        self.cond_set_neg(msb(result) == 1);
        self.cond_set_zero(result == 0);
        result
    }

    fn dec(&mut self, v: u8) -> (r: u8)
        ensures
            final(self)@ == spec_dec(old(self)@, v).0,
            r == spec_dec(old(self)@, v).1,
    {
        let result = v.wrapping_sub(1);
        self.cond_set_zero(result == 0);
        self.cond_set_neg(msb(result) == 1);
        result
    }

    fn inc(&mut self, v: u8) -> (r: u8)
        ensures
            final(self)@ == spec_inc(old(self)@, v).0,
            r == spec_inc(old(self)@, v).1,
    {
        let result = v.wrapping_add(1);
        self.cond_set_zero(result == 0);
        self.cond_set_neg(msb(result) == 1);
        result
    }

    /// The shared branch engine: always fetches the relative operand, takes
    /// the branch iff status bit `n` equals `expected`.
    fn branch(&mut self, n: u8, expected: u8) -> (r: Result<(), EmuError>)
        requires
            spec_cpu_wf(old(self)@),
            n < 8,
        ensures
            final(self)@ == spec_branch(old(self)@, n, expected).0,
            r == spec_branch(old(self)@, n, expected).1,
            spec_cpu_wf(final(self)@),
    {
        let arg = self.read_mem(self.pc.wrapping_add(1))?;
        let offset: u16 = if arg < 0x80 {
            arg as u16
        } else {
            (arg as u16) | 0xff00
        };
        let base = self.pc.wrapping_add(2);
        if self.get_st(n) == expected {
            self.pc = base.wrapping_add(offset);
        } else {
            self.pc = base;
        }
        Ok(())
    }

    // Status flag setters.
    fn cond_set_carry(&mut self, cond: bool)
        ensures
            final(self)@ == (CpuV {
                st: spec_set_bit(old(self)@.st, CARRY_BIT, cond),
                ..old(self)@
            }),
    {
        if cond {
            self.set_carry()
        } else {
            self.clear_carry()
        }
    }

    fn set_carry(&mut self)
        ensures
            final(self)@ == (CpuV {
                st: spec_set_bit(old(self)@.st, CARRY_BIT, true),
                ..old(self)@
            }),
    {
        self.set_st(CARRY_BIT)
    }

    fn clear_carry(&mut self)
        ensures
            final(self)@ == (CpuV {
                st: spec_set_bit(old(self)@.st, CARRY_BIT, false),
                ..old(self)@
            }),
    {
        self.clear_st(CARRY_BIT)
    }

    fn cond_set_zero(&mut self, cond: bool)
        ensures
            final(self)@ == (CpuV {
                st: spec_set_bit(old(self)@.st, ZERO_BIT, cond),
                ..old(self)@
            }),
    {
        if cond {
            self.set_zero()
        } else {
            self.clear_zero()
        }
    }

    fn set_zero(&mut self)
        ensures
            final(self)@ == (CpuV {
                st: spec_set_bit(old(self)@.st, ZERO_BIT, true),
                ..old(self)@
            }),
    {
        self.set_st(ZERO_BIT)
    }

    fn clear_zero(&mut self)
        ensures
            final(self)@ == (CpuV {
                st: spec_set_bit(old(self)@.st, ZERO_BIT, false),
                ..old(self)@
            }),
    {
        self.clear_st(ZERO_BIT)
    }

    fn clear_overflow(&mut self)
        ensures
            final(self)@ == (CpuV {
                st: spec_set_bit(old(self)@.st, OVERFLOW_BIT, false),
                ..old(self)@
            }),
    {
        self.clear_st(OVERFLOW_BIT)
    }

    fn cond_set_neg(&mut self, cond: bool)
        ensures
            final(self)@ == (CpuV {
                st: spec_set_bit(old(self)@.st, NEGATIVE_BIT, cond),
                ..old(self)@
            }),
    {
        if cond {
            self.set_neg()
        } else {
            self.clear_neg()
        }
    }

    fn set_neg(&mut self)
        ensures
            final(self)@ == (CpuV {
                st: spec_set_bit(old(self)@.st, NEGATIVE_BIT, true),
                ..old(self)@
            }),
    {
        self.set_st(NEGATIVE_BIT)
    }

    fn clear_neg(&mut self)
        ensures
            final(self)@ == (CpuV {
                st: spec_set_bit(old(self)@.st, NEGATIVE_BIT, false),
                ..old(self)@
            }),
    {
        self.clear_st(NEGATIVE_BIT)
    }

    fn set_decimal(&mut self)
        ensures
            final(self)@ == (CpuV {
                st: spec_set_bit(old(self)@.st, DECIMAL_BIT, true),
                ..old(self)@
            }),
    {
        self.set_st(DECIMAL_BIT)
    }

    fn clear_decimal(&mut self)
        ensures
            final(self)@ == (CpuV {
                st: spec_set_bit(old(self)@.st, DECIMAL_BIT, false),
                ..old(self)@
            }),
    {
        self.clear_st(DECIMAL_BIT)
    }

    fn set_interrupt_disable(&mut self)
        ensures
            final(self)@ == (CpuV {
                st: spec_set_bit(old(self)@.st, INTERRUPT_DISABLE_BIT, true),
                ..old(self)@
            }),
    {
        self.set_st(INTERRUPT_DISABLE_BIT)
    }

    fn clear_interrupt_disable(&mut self)
        ensures
            final(self)@ == (CpuV {
                st: spec_set_bit(old(self)@.st, INTERRUPT_DISABLE_BIT, false),
                ..old(self)@
            }),
    {
        self.clear_st(INTERRUPT_DISABLE_BIT)
    }

    fn get_st(&self, n: u8) -> (r: u8)
        requires
            n < 8,
        ensures
            r == spec_get_bit(self@.st, n),
            r <= 1,
    {
        get_bit(&self.st, n)
    }

    fn set_st(&mut self, n: u8)
        requires
            n < 8,
        ensures
            final(self)@ == (CpuV { st: spec_set_bit(old(self)@.st, n, true), ..old(self)@ }),
    {
        self.set_st_to(n, 1)
    }

    /// Sets status bit `n` (0-indexed) to `v`, which must be 0 or 1.
    fn set_st_to(&mut self, n: u8, v: u8)
        requires
            n < 8,
            v <= 1,
        ensures
            final(self)@ == (CpuV { st: spec_set_bit(old(self)@.st, n, v == 1), ..old(self)@ }),
    {
        if v == 1 {
            self.st = self.st | (1u8 << n)
        } else {
            self.st = self.st & !(1u8 << n)
        }
    }

    fn clear_st(&mut self, n: u8)
        requires
            n < 8,
        ensures
            final(self)@ == (CpuV { st: spec_set_bit(old(self)@.st, n, false), ..old(self)@ }),
    {
        self.st = self.st & !(1u8 << n)
    }

    // Stack. The stack pointer names the next free byte of the fixed page
    // 0x0100-0x01ff and wraps within it; a 16-bit value is pushed high byte
    // first, then low.
    fn stack_push(&mut self, byte: u8)
        requires
            spec_cpu_wf(old(self)@),
        ensures
            final(self)@ == spec_push(old(self)@, byte),
            spec_cpu_wf(final(self)@),
    {
        let addr: u16 = 0x100 + self.sp as u16;
        match self.write_mem(addr, byte) {
            Ok(_) => {},
            Err(_) => vstd::pervasive::unreached(),
        }
        self.sp = self.sp.wrapping_sub(1);
        self.stack_push_count = self.stack_push_count.wrapping_add(1);
    }

    fn stack_pop(&mut self) -> (r: u8)
        requires
            spec_cpu_wf(old(self)@),
        ensures
            final(self)@ == spec_pop(old(self)@).0,
            r == spec_pop(old(self)@).1,
            spec_cpu_wf(final(self)@),
    {
        self.sp = self.sp.wrapping_add(1);
        let addr: u16 = 0x100 + self.sp as u16;
        let result = match self.read_mem(addr) {
            Ok(v) => v,
            Err(_) => vstd::pervasive::unreached(),
        };
        self.stack_pop_count = self.stack_pop_count.wrapping_add(1);
        result
    }
}


/// The operations that read an operand and update the register file.
#[derive(Clone, Copy, Debug)]
pub enum AluOp {
    Adc,
    And,
    Bit,
    Cmp,
    Cpx,
    Cpy,
    Eor,
    Lda,
    Ldx,
    Ldy,
    Ora,
    Sbc,
}

/// The read-modify-write operations.
#[derive(Clone, Copy, Debug)]
pub enum RmwOp {
    Asl,
    Dec,
    Inc,
    Lsr,
    Rol,
    Ror,
}

/// The register a store instruction writes to memory.
#[derive(Clone, Copy, Debug)]
pub enum Reg {
    A,
    X,
    Y,
}

/// One decoded instruction: the operation and, where one is encoded, its
/// addressing mode.
#[derive(Clone, Copy, Debug)]
pub enum Op {
    Alu(AluOp, Mode),
    RmwMem(RmwOp, Mode),
    RmwAcc(RmwOp),
    Store(Reg, Mode),
    Bcc,
    Bcs,
    Beq,
    Bne,
    Bmi,
    Bpl,
    Bvc,
    Bvs,
    Brk,
    Clc,
    Cld,
    Cli,
    Clv,
    Dex,
    Dey,
    Inx,
    Iny,
    JmpAbs,
    JmpInd,
    Jsr,
    Nop,
    Pha,
    Php,
    Pla,
    Plp,
    Rti,
    Rts,
    Sec,
    Sed,
    Sei,
    Tax,
    Tay,
    Tsx,
    Txa,
    Txs,
    Tya,
}

pub open spec fn spec_apply_alu(c: CpuV, op: AluOp, v: u8) -> CpuV {
    match op {
        AluOp::Adc => spec_adc(c, v),
        AluOp::And => spec_and(c, v),
        AluOp::Bit => spec_bit_test(c, v),
        AluOp::Cmp => CpuV { st: spec_compare(c.st, c.accum, v), ..c },
        AluOp::Cpx => CpuV { st: spec_compare(c.st, c.rx, v), ..c },
        AluOp::Cpy => CpuV { st: spec_compare(c.st, c.ry, v), ..c },
        AluOp::Eor => spec_eor(c, v),
        AluOp::Lda => spec_lda(c, v),
        AluOp::Ldx => spec_ldx(c, v),
        AluOp::Ldy => spec_ldy(c, v),
        AluOp::Ora => spec_ora(c, v),
        AluOp::Sbc => spec_sbc(c, v),
    }
}

pub open spec fn spec_alu(c: CpuV, op: AluOp, m: Mode) -> (CpuV, Result<(), EmuError>) {
    let (c1, r) = spec_operand(c, m);
    match r {
        Err(e) => (c1, Err(e)),
        Ok(va) => (spec_apply_alu(c1, op, va.0), Ok(())),
    }
}

pub open spec fn spec_apply_rmw(c: CpuV, op: RmwOp, v: u8) -> (CpuV, u8) {
    match op {
        RmwOp::Asl => spec_asl(c, v),
        RmwOp::Dec => spec_dec(c, v),
        RmwOp::Inc => spec_inc(c, v),
        RmwOp::Lsr => spec_lsr(c, v),
        RmwOp::Rol => spec_rol(c, v),
        RmwOp::Ror => spec_ror(c, v),
    }
}

pub open spec fn spec_rmw_mem(c: CpuV, op: RmwOp, m: Mode) -> (CpuV, Result<(), EmuError>) {
    let (c1, r) = spec_operand(c, m);
    match r {
        Err(e) => (c1, Err(e)),
        Ok(va) => {
            let (c2, result) = spec_apply_rmw(c1, op, va.0);
            spec_cpu_write(c2, va.1, result)
        },
    }
}

pub open spec fn spec_rmw_acc(c: CpuV, op: RmwOp) -> CpuV {
    let (c2, result) = spec_apply_rmw(c, op, c.accum);
    CpuV { accum: result, pc: c.pc.wrapping_add(1), ..c2 }
}

pub open spec fn spec_store(c: CpuV, reg: Reg, m: Mode) -> (CpuV, Result<(), EmuError>) {
    let (c1, r) = spec_operand(c, m);
    match r {
        Err(e) => (c1, Err(e)),
        Ok(va) => {
            let v = match reg {
                Reg::A => c1.accum,
                Reg::X => c1.rx,
                Reg::Y => c1.ry,
            };
            spec_cpu_write(c1, va.1, v)
        },
    }
}

pub open spec fn spec_jmp_abs(c: CpuV) -> (CpuV, Result<(), EmuError>) {
    let (c1, r1) = spec_cpu_read(c, c.pc.wrapping_add(1));
    match r1 {
        Err(e) => (c1, Err(e)),
        Ok(lo) => {
            let (c2, r2) = spec_cpu_read(c1, c.pc.wrapping_add(2));
            match r2 {
                Err(e) => (c2, Err(e)),
                Ok(hi) => (CpuV { pc: spec_join_hi_low(lo, hi), ..c2 }, Ok(())),
            }
        },
    }
}

/// The indirect jump reproduces the original hardware's page-boundary bug:
/// when the vector's low byte is 0xff, the high byte comes from the start
/// of the same page, not the next one.
pub open spec fn spec_jmp_ind(c: CpuV) -> (CpuV, Result<(), EmuError>) {
    let (c1, r1) = spec_cpu_read(c, c.pc.wrapping_add(1));
    match r1 {
        Err(e) => (c1, Err(e)),
        Ok(lo_ind) => {
            let (c2, r2) = spec_cpu_read(c1, c.pc.wrapping_add(2));
            match r2 {
                Err(e) => (c2, Err(e)),
                Ok(hi_ind) => {
                    let page = (hi_ind as u16) << 8;
                    let (c3, r3) = spec_cpu_read(c2, page | (lo_ind as u16));
                    match r3 {
                        Err(e) => (c3, Err(e)),
                        Ok(lo) => {
                            let (c4, r4) = spec_cpu_read(c3, page | (lo_ind.wrapping_add(1) as u16));
                            match r4 {
                                Err(e) => (c4, Err(e)),
                                Ok(hi) => (CpuV { pc: spec_join_hi_low(lo, hi), ..c4 }, Ok(())),
                            }
                        },
                    }
                },
            }
        },
    }
}

/// JSR pushes the return address minus one, high byte first, then jumps.
pub open spec fn spec_jsr(c: CpuV) -> (CpuV, Result<(), EmuError>) {
    let ret = c.pc.wrapping_add(2);
    let c1 = spec_push(c, spec_hi(ret));
    let c2 = spec_push(c1, spec_lo(ret));
    let (c3, r3) = spec_cpu_read(c2, c.pc.wrapping_add(1));
    match r3 {
        Err(e) => (c3, Err(e)),
        Ok(lo) => {
            let (c4, r4) = spec_cpu_read(c3, c.pc.wrapping_add(2));
            match r4 {
                Err(e) => (c4, Err(e)),
                Ok(hi) => (CpuV { pc: spec_join_hi_low(lo, hi), ..c4 }, Ok(())),
            }
        },
    }
}

/// BRK pushes the program counter (high byte, then low), then the status
/// with the Break flag forced set, and loads the program counter from the
/// fixed interrupt vector. The status register itself is unchanged.
pub open spec fn spec_brk(c: CpuV) -> CpuV {
    let c1 = spec_push(c, spec_hi(c.pc));
    let c2 = spec_push(c1, spec_lo(c.pc));
    let c3 = spec_push(c2, c.st | 0x10);
    CpuV {
        pc: spec_join_hi_low(spec_read_val(c3, BRK_IH), spec_read_val(c3, (BRK_IH + 1) as u16)),
        ..c3
    }
}

/// PHP pushes the status with the Break flag cleared; only the pushed copy
/// is cleared, the status register itself is unchanged.
pub open spec fn spec_php(c: CpuV) -> CpuV {
    let c1 = spec_push(c, spec_set_bit(c.st, BREAK_BIT, false));
    CpuV { pc: c.pc.wrapping_add(1), ..c1 }
}

pub open spec fn spec_pha(c: CpuV) -> CpuV {
    let c1 = spec_push(c, c.accum);
    CpuV { pc: c.pc.wrapping_add(1), ..c1 }
}

pub open spec fn spec_pla(c: CpuV) -> CpuV {
    let (c1, v) = spec_pop(c);
    CpuV { accum: v, st: spec_zn(c1.st, v), pc: c.pc.wrapping_add(1), ..c1 }
}

/// PLP loads the status verbatim.
pub open spec fn spec_plp(c: CpuV) -> CpuV {
    let (c1, v) = spec_pop(c);
    CpuV { st: v, pc: c.pc.wrapping_add(1), ..c1 }
}

/// RTI pops the status, then the program counter, low byte first.
pub open spec fn spec_rti(c: CpuV) -> CpuV {
    let (c1, st) = spec_pop(c);
    let (c2, lo) = spec_pop(c1);
    let (c3, hi) = spec_pop(c2);
    CpuV { st, pc: spec_join_hi_low(lo, hi), ..c3 }
}

/// RTS pops low then high and adds one.
pub open spec fn spec_rts(c: CpuV) -> CpuV {
    let (c1, lo) = spec_pop(c);
    let (c2, hi) = spec_pop(c1);
    CpuV { pc: spec_join_hi_low(lo, hi).wrapping_add(1), ..c2 }
}

/// What one decoded instruction does to the whole machine.
pub open spec fn spec_run(c: CpuV, instr: Op) -> (CpuV, Result<(), EmuError>) {
    match instr {
        Op::Alu(op, m) => spec_alu(c, op, m),
        Op::RmwMem(op, m) => spec_rmw_mem(c, op, m),
        Op::RmwAcc(op) => (spec_rmw_acc(c, op), Ok(())),
        Op::Store(reg, m) => spec_store(c, reg, m),
        Op::Bcc => spec_branch(c, CARRY_BIT, 0),
        Op::Bcs => spec_branch(c, CARRY_BIT, 1),
        Op::Beq => spec_branch(c, ZERO_BIT, 1),
        Op::Bne => spec_branch(c, ZERO_BIT, 0),
        Op::Bmi => spec_branch(c, NEGATIVE_BIT, 1),
        Op::Bpl => spec_branch(c, NEGATIVE_BIT, 0),
        Op::Bvc => spec_branch(c, OVERFLOW_BIT, 0),
        Op::Bvs => spec_branch(c, OVERFLOW_BIT, 1),
        Op::Brk => (spec_brk(c), Ok(())),
        Op::Clc => (
            CpuV { st: spec_set_bit(c.st, CARRY_BIT, false), pc: c.pc.wrapping_add(1), ..c },
            Ok(()),
        ),
        Op::Cld => (
            CpuV { st: spec_set_bit(c.st, DECIMAL_BIT, false), pc: c.pc.wrapping_add(1), ..c },
            Ok(()),
        ),
        Op::Cli => (
            CpuV {
                st: spec_set_bit(c.st, INTERRUPT_DISABLE_BIT, false),
                pc: c.pc.wrapping_add(1),
                ..c
            },
            Ok(()),
        ),
        Op::Clv => (
            CpuV { st: spec_set_bit(c.st, OVERFLOW_BIT, false), pc: c.pc.wrapping_add(1), ..c },
            Ok(()),
        ),
        Op::Dex => {
            let v = c.rx.wrapping_sub(1);
            (CpuV { rx: v, st: spec_zn(c.st, v), pc: c.pc.wrapping_add(1), ..c }, Ok(()))
        },
        Op::Dey => {
            let v = c.ry.wrapping_sub(1);
            (CpuV { ry: v, st: spec_zn(c.st, v), pc: c.pc.wrapping_add(1), ..c }, Ok(()))
        },
        Op::Inx => {
            let v = c.rx.wrapping_add(1);
            (CpuV { rx: v, st: spec_zn(c.st, v), pc: c.pc.wrapping_add(1), ..c }, Ok(()))
        },
        Op::Iny => {
            let v = c.ry.wrapping_add(1);
            (CpuV { ry: v, st: spec_zn(c.st, v), pc: c.pc.wrapping_add(1), ..c }, Ok(()))
        },
        Op::JmpAbs => spec_jmp_abs(c),
        Op::JmpInd => spec_jmp_ind(c),
        Op::Jsr => spec_jsr(c),
        Op::Nop => (CpuV { pc: c.pc.wrapping_add(1), ..c }, Ok(())),
        Op::Pha => (spec_pha(c), Ok(())),
        Op::Php => (spec_php(c), Ok(())),
        Op::Pla => (spec_pla(c), Ok(())),
        Op::Plp => (spec_plp(c), Ok(())),
        Op::Rti => (spec_rti(c), Ok(())),
        Op::Rts => (spec_rts(c), Ok(())),
        Op::Sec => (
            CpuV { st: spec_set_bit(c.st, CARRY_BIT, true), pc: c.pc.wrapping_add(1), ..c },
            Ok(()),
        ),
        Op::Sed => (
            CpuV { st: spec_set_bit(c.st, DECIMAL_BIT, true), pc: c.pc.wrapping_add(1), ..c },
            Ok(()),
        ),
        Op::Sei => (
            CpuV {
                st: spec_set_bit(c.st, INTERRUPT_DISABLE_BIT, true),
                pc: c.pc.wrapping_add(1),
                ..c
            },
            Ok(()),
        ),
        Op::Tax => (
            CpuV { rx: c.accum, st: spec_zn(c.st, c.accum), pc: c.pc.wrapping_add(1), ..c },
            Ok(()),
        ),
        Op::Tay => (
            CpuV { ry: c.accum, st: spec_zn(c.st, c.accum), pc: c.pc.wrapping_add(1), ..c },
            Ok(()),
        ),
        Op::Tsx => (
            CpuV { rx: c.sp, st: spec_zn(c.st, c.sp), pc: c.pc.wrapping_add(1), ..c },
            Ok(()),
        ),
        Op::Txa => (
            CpuV { accum: c.rx, st: spec_zn(c.st, c.rx), pc: c.pc.wrapping_add(1), ..c },
            Ok(()),
        ),
        Op::Txs => (CpuV { sp: c.rx, pc: c.pc.wrapping_add(1), ..c }, Ok(())),
        Op::Tya => (
            CpuV { accum: c.ry, st: spec_zn(c.st, c.ry), pc: c.pc.wrapping_add(1), ..c },
            Ok(()),
        ),
    }
}

/// The full legal opcode set, each opcode mapped to its operation and
/// addressing mode; anything else is undefined.
pub open spec fn spec_decode(opcode: u8) -> Option<Op> {
    match opcode {
        0x00 => Some(Op::Brk),
        0x01 => Some(Op::Alu(AluOp::Ora, Mode::IndirectX)),
        0x05 => Some(Op::Alu(AluOp::Ora, Mode::ZeroPage)),
        0x06 => Some(Op::RmwMem(RmwOp::Asl, Mode::ZeroPage)),
        0x08 => Some(Op::Php),
        0x09 => Some(Op::Alu(AluOp::Ora, Mode::Immediate)),
        0x0a => Some(Op::RmwAcc(RmwOp::Asl)),
        0x0d => Some(Op::Alu(AluOp::Ora, Mode::Absolute)),
        0x0e => Some(Op::RmwMem(RmwOp::Asl, Mode::Absolute)),
        0x10 => Some(Op::Bpl),
        0x11 => Some(Op::Alu(AluOp::Ora, Mode::IndirectY)),
        0x15 => Some(Op::Alu(AluOp::Ora, Mode::ZeroPageX)),
        0x16 => Some(Op::RmwMem(RmwOp::Asl, Mode::ZeroPageX)),
        0x18 => Some(Op::Clc),
        0x19 => Some(Op::Alu(AluOp::Ora, Mode::AbsoluteY)),
        0x1d => Some(Op::Alu(AluOp::Ora, Mode::AbsoluteX)),
        0x1e => Some(Op::RmwMem(RmwOp::Asl, Mode::AbsoluteX)),
        0x20 => Some(Op::Jsr),
        0x21 => Some(Op::Alu(AluOp::And, Mode::IndirectX)),
        0x24 => Some(Op::Alu(AluOp::Bit, Mode::ZeroPage)),
        0x25 => Some(Op::Alu(AluOp::And, Mode::ZeroPage)),
        0x26 => Some(Op::RmwMem(RmwOp::Rol, Mode::ZeroPage)),
        0x28 => Some(Op::Plp),
        0x29 => Some(Op::Alu(AluOp::And, Mode::Immediate)),
        0x2a => Some(Op::RmwAcc(RmwOp::Rol)),
        0x2c => Some(Op::Alu(AluOp::Bit, Mode::Absolute)),
        0x2d => Some(Op::Alu(AluOp::And, Mode::Absolute)),
        0x2e => Some(Op::RmwMem(RmwOp::Rol, Mode::Absolute)),
        0x30 => Some(Op::Bmi),
        0x31 => Some(Op::Alu(AluOp::And, Mode::IndirectY)),
        0x35 => Some(Op::Alu(AluOp::And, Mode::ZeroPageX)),
        0x36 => Some(Op::RmwMem(RmwOp::Rol, Mode::ZeroPageX)),
        0x38 => Some(Op::Sec),
        0x39 => Some(Op::Alu(AluOp::And, Mode::AbsoluteY)),
        0x3d => Some(Op::Alu(AluOp::And, Mode::AbsoluteX)),
        0x3e => Some(Op::RmwMem(RmwOp::Rol, Mode::AbsoluteX)),
        0x40 => Some(Op::Rti),
        0x41 => Some(Op::Alu(AluOp::Eor, Mode::IndirectX)),
        0x45 => Some(Op::Alu(AluOp::Eor, Mode::ZeroPage)),
        0x46 => Some(Op::RmwMem(RmwOp::Lsr, Mode::ZeroPage)),
        0x48 => Some(Op::Pha),
        0x49 => Some(Op::Alu(AluOp::Eor, Mode::Immediate)),
        0x4a => Some(Op::RmwAcc(RmwOp::Lsr)),
        0x4c => Some(Op::JmpAbs),
        0x4d => Some(Op::Alu(AluOp::Eor, Mode::Absolute)),
        0x4e => Some(Op::RmwMem(RmwOp::Lsr, Mode::Absolute)),
        0x50 => Some(Op::Bvc),
        0x51 => Some(Op::Alu(AluOp::Eor, Mode::IndirectY)),
        0x55 => Some(Op::Alu(AluOp::Eor, Mode::ZeroPageX)),
        0x56 => Some(Op::RmwMem(RmwOp::Lsr, Mode::ZeroPageX)),
        0x58 => Some(Op::Cli),
        0x59 => Some(Op::Alu(AluOp::Eor, Mode::AbsoluteY)),
        0x5d => Some(Op::Alu(AluOp::Eor, Mode::AbsoluteX)),
        0x5e => Some(Op::RmwMem(RmwOp::Lsr, Mode::AbsoluteX)),
        0x60 => Some(Op::Rts),
        0x61 => Some(Op::Alu(AluOp::Adc, Mode::IndirectX)),
        0x65 => Some(Op::Alu(AluOp::Adc, Mode::ZeroPage)),
        0x66 => Some(Op::RmwMem(RmwOp::Ror, Mode::ZeroPage)),
        0x68 => Some(Op::Pla),
        0x69 => Some(Op::Alu(AluOp::Adc, Mode::Immediate)),
        0x6a => Some(Op::RmwAcc(RmwOp::Ror)),
        0x6c => Some(Op::JmpInd),
        0x6d => Some(Op::Alu(AluOp::Adc, Mode::Absolute)),
        0x6e => Some(Op::RmwMem(RmwOp::Ror, Mode::Absolute)),
        0x70 => Some(Op::Bvs),
        0x71 => Some(Op::Alu(AluOp::Adc, Mode::IndirectY)),
        0x75 => Some(Op::Alu(AluOp::Adc, Mode::ZeroPageX)),
        0x76 => Some(Op::RmwMem(RmwOp::Ror, Mode::ZeroPageX)),
        0x78 => Some(Op::Sei),
        0x79 => Some(Op::Alu(AluOp::Adc, Mode::AbsoluteY)),
        0x7d => Some(Op::Alu(AluOp::Adc, Mode::AbsoluteX)),
        0x7e => Some(Op::RmwMem(RmwOp::Ror, Mode::AbsoluteX)),
        0x81 => Some(Op::Store(Reg::A, Mode::IndirectX)),
        0x84 => Some(Op::Store(Reg::Y, Mode::ZeroPage)),
        0x85 => Some(Op::Store(Reg::A, Mode::ZeroPage)),
        0x86 => Some(Op::Store(Reg::X, Mode::ZeroPage)),
        0x88 => Some(Op::Dey),
        0x8a => Some(Op::Txa),
        0x8c => Some(Op::Store(Reg::Y, Mode::Absolute)),
        0x8d => Some(Op::Store(Reg::A, Mode::Absolute)),
        0x8e => Some(Op::Store(Reg::X, Mode::Absolute)),
        0x90 => Some(Op::Bcc),
        0x91 => Some(Op::Store(Reg::A, Mode::IndirectY)),
        0x94 => Some(Op::Store(Reg::Y, Mode::ZeroPageX)),
        0x95 => Some(Op::Store(Reg::A, Mode::ZeroPageX)),
        0x96 => Some(Op::Store(Reg::X, Mode::ZeroPageY)),
        0x98 => Some(Op::Tya),
        0x99 => Some(Op::Store(Reg::A, Mode::AbsoluteY)),
        0x9a => Some(Op::Txs),
        0x9d => Some(Op::Store(Reg::A, Mode::AbsoluteX)),
        0xa0 => Some(Op::Alu(AluOp::Ldy, Mode::Immediate)),
        0xa1 => Some(Op::Alu(AluOp::Lda, Mode::IndirectX)),
        0xa2 => Some(Op::Alu(AluOp::Ldx, Mode::Immediate)),
        0xa4 => Some(Op::Alu(AluOp::Ldy, Mode::ZeroPage)),
        0xa5 => Some(Op::Alu(AluOp::Lda, Mode::ZeroPage)),
        0xa6 => Some(Op::Alu(AluOp::Ldx, Mode::ZeroPage)),
        0xa8 => Some(Op::Tay),
        0xa9 => Some(Op::Alu(AluOp::Lda, Mode::Immediate)),
        0xaa => Some(Op::Tax),
        0xac => Some(Op::Alu(AluOp::Ldy, Mode::Absolute)),
        0xad => Some(Op::Alu(AluOp::Lda, Mode::Absolute)),
        0xae => Some(Op::Alu(AluOp::Ldx, Mode::Absolute)),
        0xb0 => Some(Op::Bcs),
        0xb1 => Some(Op::Alu(AluOp::Lda, Mode::IndirectY)),
        0xb4 => Some(Op::Alu(AluOp::Ldy, Mode::ZeroPageX)),
        0xb5 => Some(Op::Alu(AluOp::Lda, Mode::ZeroPageX)),
        0xb6 => Some(Op::Alu(AluOp::Ldx, Mode::ZeroPageY)),
        0xb8 => Some(Op::Clv),
        0xb9 => Some(Op::Alu(AluOp::Lda, Mode::AbsoluteY)),
        0xba => Some(Op::Tsx),
        0xbc => Some(Op::Alu(AluOp::Ldy, Mode::AbsoluteX)),
        0xbd => Some(Op::Alu(AluOp::Lda, Mode::AbsoluteX)),
        0xbe => Some(Op::Alu(AluOp::Ldx, Mode::AbsoluteY)),
        0xc0 => Some(Op::Alu(AluOp::Cpy, Mode::Immediate)),
        0xc1 => Some(Op::Alu(AluOp::Cmp, Mode::IndirectX)),
        0xc4 => Some(Op::Alu(AluOp::Cpy, Mode::ZeroPage)),
        0xc5 => Some(Op::Alu(AluOp::Cmp, Mode::ZeroPage)),
        0xc6 => Some(Op::RmwMem(RmwOp::Dec, Mode::ZeroPage)),
        0xc8 => Some(Op::Iny),
        0xc9 => Some(Op::Alu(AluOp::Cmp, Mode::Immediate)),
        0xca => Some(Op::Dex),
        0xcc => Some(Op::Alu(AluOp::Cpy, Mode::Absolute)),
        0xcd => Some(Op::Alu(AluOp::Cmp, Mode::Absolute)),
        0xce => Some(Op::RmwMem(RmwOp::Dec, Mode::Absolute)),
        0xd0 => Some(Op::Bne),
        0xd1 => Some(Op::Alu(AluOp::Cmp, Mode::IndirectY)),
        0xd5 => Some(Op::Alu(AluOp::Cmp, Mode::ZeroPageX)),
        0xd6 => Some(Op::RmwMem(RmwOp::Dec, Mode::ZeroPageX)),
        0xd8 => Some(Op::Cld),
        0xd9 => Some(Op::Alu(AluOp::Cmp, Mode::AbsoluteY)),
        0xdd => Some(Op::Alu(AluOp::Cmp, Mode::AbsoluteX)),
        0xde => Some(Op::RmwMem(RmwOp::Dec, Mode::AbsoluteX)),
        0xe0 => Some(Op::Alu(AluOp::Cpx, Mode::Immediate)),
        0xe1 => Some(Op::Alu(AluOp::Sbc, Mode::IndirectX)),
        0xe4 => Some(Op::Alu(AluOp::Cpx, Mode::ZeroPage)),
        0xe5 => Some(Op::Alu(AluOp::Sbc, Mode::ZeroPage)),
        0xe6 => Some(Op::RmwMem(RmwOp::Inc, Mode::ZeroPage)),
        0xe8 => Some(Op::Inx),
        0xe9 => Some(Op::Alu(AluOp::Sbc, Mode::Immediate)),
        0xea => Some(Op::Nop),
        0xec => Some(Op::Alu(AluOp::Cpx, Mode::Absolute)),
        0xed => Some(Op::Alu(AluOp::Sbc, Mode::Absolute)),
        0xee => Some(Op::RmwMem(RmwOp::Inc, Mode::Absolute)),
        0xf0 => Some(Op::Beq),
        0xf1 => Some(Op::Alu(AluOp::Sbc, Mode::IndirectY)),
        0xf5 => Some(Op::Alu(AluOp::Sbc, Mode::ZeroPageX)),
        0xf6 => Some(Op::RmwMem(RmwOp::Inc, Mode::ZeroPageX)),
        0xf8 => Some(Op::Sed),
        0xf9 => Some(Op::Alu(AluOp::Sbc, Mode::AbsoluteY)),
        0xfd => Some(Op::Alu(AluOp::Sbc, Mode::AbsoluteX)),
        0xfe => Some(Op::RmwMem(RmwOp::Inc, Mode::AbsoluteX)),
        _ => None,
    }
}

/// Executing one opcode: an undefined opcode is an unrecoverable fault that
/// reports the opcode and the address it was fetched from.
pub open spec fn spec_exec_opcode(c: CpuV, opcode: u8) -> (CpuV, Result<(), EmuError>) {
    match spec_decode(opcode) {
        Some(instr) => spec_run(c, instr),
        None => (c, Err(EmuError::IllegalOpcode { opcode, addr: c.pc })),
    }
}

/// Servicing the non-maskable interrupt: the request pin is cleared, the
/// program counter and the status (bit 5 set, Break clear) are pushed, the
/// Interrupt-Disable flag is set, and the handler address is loaded from
/// the fixed vector.
pub open spec fn spec_nmi(c: CpuV) -> CpuV {
    let c0 = CpuV { bus: BusV { ppu: PpuV { nmi: false, ..c.bus.ppu }, ..c.bus }, ..c };
    let c1 = spec_push(c0, spec_hi(c.pc));
    let c2 = spec_push(c1, spec_lo(c.pc));
    let c3 = spec_push(c2, (c.st | 0x20) & !0x10);
    let c4 = CpuV { st: spec_set_bit(c3.st, INTERRUPT_DISABLE_BIT, true), ..c3 };
    CpuV {
        pc: spec_join_hi_low(
            spec_read_val(c4, NON_MASKABLE_IH),
            spec_read_val(c4, (NON_MASKABLE_IH + 1) as u16),
        ),
        ..c4
    }
}

/// The trace snapshot taken at an instruction boundary: the fetch address
/// and opcode, the register file as it stands, the status as traces render
/// it, and the cycle count before the fetch.
pub open spec fn spec_snapshot(c: CpuV, opcode: u8, start_cycles: u64) -> CpuState {
    CpuState {
        addr: c.pc,
        opcode,
        a: c.accum,
        x: c.rx,
        y: c.ry,
        p: spec_trace_status(c.st),
        sp: c.sp,
        cycles: start_cycles,
    }
}

/// One instruction boundary: a pending NMI is serviced first; then the
/// opcode at the program counter is fetched, the snapshot is taken, and the
/// instruction executes. The cycle counter pays one cycle for the fetch, a
/// floor of two per instruction, and one per stack access.
pub open spec fn spec_step(c: CpuV) -> (CpuV, Result<CpuState, EmuError>) {
    let ca = CpuV { pushes: 0, pops: 0, ..c };
    let cb = if ca.bus.ppu.nmi {
        spec_nmi(ca)
    } else {
        ca
    };
    let (cc, r1) = spec_cpu_read(cb, cb.pc);
    match r1 {
        Err(e) => (cc, Err(e)),
        Ok(opcode) => {
            let cd = CpuV { cycles: cc.cycles.wrapping_add(1), ..cc };
            let snap = spec_snapshot(cd, opcode, c.cycles);
            let (ce, r2) = spec_exec_opcode(cd, opcode);
            match r2 {
                Err(e) => (ce, Err(e)),
                Ok(u) => {
                    let cf = if ce.cycles.wrapping_sub(c.cycles) == 1 {
                        CpuV { cycles: ce.cycles.wrapping_add(1), ..ce }
                    } else {
                        ce
                    };
                    let cg = CpuV { cycles: cf.cycles.wrapping_add((cf.pushes + cf.pops) as u64), ..cf };
                    (cg, Ok(snap))
                },
            }
        },
    }
}

/// Running `n` instruction boundaries, collecting one snapshot per step; a
/// fault stops the run where it stands.
pub open spec fn spec_run_debug(c: CpuV, n: nat) -> (CpuV, Result<Seq<CpuState>, EmuError>)
    decreases n,
{
    if n == 0 {
        (c, Ok(Seq::empty()))
    } else {
        let (c1, r) = spec_step(c);
        match r {
            Err(e) => (c1, Err(e)),
            Ok(s) => {
                let (c2, r2) = spec_run_debug(c1, (n - 1) as nat);
                match r2 {
                    Err(e) => (c2, Err(e)),
                    Ok(rest) => (c2, Ok(seq![s] + rest)),
                }
            },
        }
    }
}

/// Maps each opcode of the legal instruction set to its operation and
/// addressing mode.
fn decode(opcode: u8) -> (r: Option<Op>)
    ensures
        r == spec_decode(opcode),
{
    match opcode {
            0x00 => Some(Op::Brk),
            0x01 => Some(Op::Alu(AluOp::Ora, Mode::IndirectX)),
            0x05 => Some(Op::Alu(AluOp::Ora, Mode::ZeroPage)),
            0x06 => Some(Op::RmwMem(RmwOp::Asl, Mode::ZeroPage)),
            0x08 => Some(Op::Php),
            0x09 => Some(Op::Alu(AluOp::Ora, Mode::Immediate)),
            0x0a => Some(Op::RmwAcc(RmwOp::Asl)),
            0x0d => Some(Op::Alu(AluOp::Ora, Mode::Absolute)),
            0x0e => Some(Op::RmwMem(RmwOp::Asl, Mode::Absolute)),
            0x10 => Some(Op::Bpl),
            0x11 => Some(Op::Alu(AluOp::Ora, Mode::IndirectY)),
            0x15 => Some(Op::Alu(AluOp::Ora, Mode::ZeroPageX)),
            0x16 => Some(Op::RmwMem(RmwOp::Asl, Mode::ZeroPageX)),
            0x18 => Some(Op::Clc),
            0x19 => Some(Op::Alu(AluOp::Ora, Mode::AbsoluteY)),
            0x1d => Some(Op::Alu(AluOp::Ora, Mode::AbsoluteX)),
            0x1e => Some(Op::RmwMem(RmwOp::Asl, Mode::AbsoluteX)),
            0x20 => Some(Op::Jsr),
            0x21 => Some(Op::Alu(AluOp::And, Mode::IndirectX)),
            0x24 => Some(Op::Alu(AluOp::Bit, Mode::ZeroPage)),
            0x25 => Some(Op::Alu(AluOp::And, Mode::ZeroPage)),
            0x26 => Some(Op::RmwMem(RmwOp::Rol, Mode::ZeroPage)),
            0x28 => Some(Op::Plp),
            0x29 => Some(Op::Alu(AluOp::And, Mode::Immediate)),
            0x2a => Some(Op::RmwAcc(RmwOp::Rol)),
            0x2c => Some(Op::Alu(AluOp::Bit, Mode::Absolute)),
            0x2d => Some(Op::Alu(AluOp::And, Mode::Absolute)),
            0x2e => Some(Op::RmwMem(RmwOp::Rol, Mode::Absolute)),
            0x30 => Some(Op::Bmi),
            0x31 => Some(Op::Alu(AluOp::And, Mode::IndirectY)),
            0x35 => Some(Op::Alu(AluOp::And, Mode::ZeroPageX)),
            0x36 => Some(Op::RmwMem(RmwOp::Rol, Mode::ZeroPageX)),
            0x38 => Some(Op::Sec),
            0x39 => Some(Op::Alu(AluOp::And, Mode::AbsoluteY)),
            0x3d => Some(Op::Alu(AluOp::And, Mode::AbsoluteX)),
            0x3e => Some(Op::RmwMem(RmwOp::Rol, Mode::AbsoluteX)),
            0x40 => Some(Op::Rti),
            0x41 => Some(Op::Alu(AluOp::Eor, Mode::IndirectX)),
            0x45 => Some(Op::Alu(AluOp::Eor, Mode::ZeroPage)),
            0x46 => Some(Op::RmwMem(RmwOp::Lsr, Mode::ZeroPage)),
            0x48 => Some(Op::Pha),
            0x49 => Some(Op::Alu(AluOp::Eor, Mode::Immediate)),
            0x4a => Some(Op::RmwAcc(RmwOp::Lsr)),
            0x4c => Some(Op::JmpAbs),
            0x4d => Some(Op::Alu(AluOp::Eor, Mode::Absolute)),
            0x4e => Some(Op::RmwMem(RmwOp::Lsr, Mode::Absolute)),
            0x50 => Some(Op::Bvc),
            0x51 => Some(Op::Alu(AluOp::Eor, Mode::IndirectY)),
            0x55 => Some(Op::Alu(AluOp::Eor, Mode::ZeroPageX)),
            0x56 => Some(Op::RmwMem(RmwOp::Lsr, Mode::ZeroPageX)),
            0x58 => Some(Op::Cli),
            0x59 => Some(Op::Alu(AluOp::Eor, Mode::AbsoluteY)),
            0x5d => Some(Op::Alu(AluOp::Eor, Mode::AbsoluteX)),
            0x5e => Some(Op::RmwMem(RmwOp::Lsr, Mode::AbsoluteX)),
            0x60 => Some(Op::Rts),
            0x61 => Some(Op::Alu(AluOp::Adc, Mode::IndirectX)),
            0x65 => Some(Op::Alu(AluOp::Adc, Mode::ZeroPage)),
            0x66 => Some(Op::RmwMem(RmwOp::Ror, Mode::ZeroPage)),
            0x68 => Some(Op::Pla),
            0x69 => Some(Op::Alu(AluOp::Adc, Mode::Immediate)),
            0x6a => Some(Op::RmwAcc(RmwOp::Ror)),
            0x6c => Some(Op::JmpInd),
            0x6d => Some(Op::Alu(AluOp::Adc, Mode::Absolute)),
            0x6e => Some(Op::RmwMem(RmwOp::Ror, Mode::Absolute)),
            0x70 => Some(Op::Bvs),
            0x71 => Some(Op::Alu(AluOp::Adc, Mode::IndirectY)),
            0x75 => Some(Op::Alu(AluOp::Adc, Mode::ZeroPageX)),
            0x76 => Some(Op::RmwMem(RmwOp::Ror, Mode::ZeroPageX)),
            0x78 => Some(Op::Sei),
            0x79 => Some(Op::Alu(AluOp::Adc, Mode::AbsoluteY)),
            0x7d => Some(Op::Alu(AluOp::Adc, Mode::AbsoluteX)),
            0x7e => Some(Op::RmwMem(RmwOp::Ror, Mode::AbsoluteX)),
            0x81 => Some(Op::Store(Reg::A, Mode::IndirectX)),
            0x84 => Some(Op::Store(Reg::Y, Mode::ZeroPage)),
            0x85 => Some(Op::Store(Reg::A, Mode::ZeroPage)),
            0x86 => Some(Op::Store(Reg::X, Mode::ZeroPage)),
            0x88 => Some(Op::Dey),
            0x8a => Some(Op::Txa),
            0x8c => Some(Op::Store(Reg::Y, Mode::Absolute)),
            0x8d => Some(Op::Store(Reg::A, Mode::Absolute)),
            0x8e => Some(Op::Store(Reg::X, Mode::Absolute)),
            0x90 => Some(Op::Bcc),
            0x91 => Some(Op::Store(Reg::A, Mode::IndirectY)),
            0x94 => Some(Op::Store(Reg::Y, Mode::ZeroPageX)),
            0x95 => Some(Op::Store(Reg::A, Mode::ZeroPageX)),
            0x96 => Some(Op::Store(Reg::X, Mode::ZeroPageY)),
            0x98 => Some(Op::Tya),
            0x99 => Some(Op::Store(Reg::A, Mode::AbsoluteY)),
            0x9a => Some(Op::Txs),
            0x9d => Some(Op::Store(Reg::A, Mode::AbsoluteX)),
            0xa0 => Some(Op::Alu(AluOp::Ldy, Mode::Immediate)),
            0xa1 => Some(Op::Alu(AluOp::Lda, Mode::IndirectX)),
            0xa2 => Some(Op::Alu(AluOp::Ldx, Mode::Immediate)),
            0xa4 => Some(Op::Alu(AluOp::Ldy, Mode::ZeroPage)),
            0xa5 => Some(Op::Alu(AluOp::Lda, Mode::ZeroPage)),
            0xa6 => Some(Op::Alu(AluOp::Ldx, Mode::ZeroPage)),
            0xa8 => Some(Op::Tay),
            0xa9 => Some(Op::Alu(AluOp::Lda, Mode::Immediate)),
            0xaa => Some(Op::Tax),
            0xac => Some(Op::Alu(AluOp::Ldy, Mode::Absolute)),
            0xad => Some(Op::Alu(AluOp::Lda, Mode::Absolute)),
            0xae => Some(Op::Alu(AluOp::Ldx, Mode::Absolute)),
            0xb0 => Some(Op::Bcs),
            0xb1 => Some(Op::Alu(AluOp::Lda, Mode::IndirectY)),
            0xb4 => Some(Op::Alu(AluOp::Ldy, Mode::ZeroPageX)),
            0xb5 => Some(Op::Alu(AluOp::Lda, Mode::ZeroPageX)),
            0xb6 => Some(Op::Alu(AluOp::Ldx, Mode::ZeroPageY)),
            0xb8 => Some(Op::Clv),
            0xb9 => Some(Op::Alu(AluOp::Lda, Mode::AbsoluteY)),
            0xba => Some(Op::Tsx),
            0xbc => Some(Op::Alu(AluOp::Ldy, Mode::AbsoluteX)),
            0xbd => Some(Op::Alu(AluOp::Lda, Mode::AbsoluteX)),
            0xbe => Some(Op::Alu(AluOp::Ldx, Mode::AbsoluteY)),
            0xc0 => Some(Op::Alu(AluOp::Cpy, Mode::Immediate)),
            0xc1 => Some(Op::Alu(AluOp::Cmp, Mode::IndirectX)),
            0xc4 => Some(Op::Alu(AluOp::Cpy, Mode::ZeroPage)),
            0xc5 => Some(Op::Alu(AluOp::Cmp, Mode::ZeroPage)),
            0xc6 => Some(Op::RmwMem(RmwOp::Dec, Mode::ZeroPage)),
            0xc8 => Some(Op::Iny),
            0xc9 => Some(Op::Alu(AluOp::Cmp, Mode::Immediate)),
            0xca => Some(Op::Dex),
            0xcc => Some(Op::Alu(AluOp::Cpy, Mode::Absolute)),
            0xcd => Some(Op::Alu(AluOp::Cmp, Mode::Absolute)),
            0xce => Some(Op::RmwMem(RmwOp::Dec, Mode::Absolute)),
            0xd0 => Some(Op::Bne),
            0xd1 => Some(Op::Alu(AluOp::Cmp, Mode::IndirectY)),
            0xd5 => Some(Op::Alu(AluOp::Cmp, Mode::ZeroPageX)),
            0xd6 => Some(Op::RmwMem(RmwOp::Dec, Mode::ZeroPageX)),
            0xd8 => Some(Op::Cld),
            0xd9 => Some(Op::Alu(AluOp::Cmp, Mode::AbsoluteY)),
            0xdd => Some(Op::Alu(AluOp::Cmp, Mode::AbsoluteX)),
            0xde => Some(Op::RmwMem(RmwOp::Dec, Mode::AbsoluteX)),
            0xe0 => Some(Op::Alu(AluOp::Cpx, Mode::Immediate)),
            0xe1 => Some(Op::Alu(AluOp::Sbc, Mode::IndirectX)),
            0xe4 => Some(Op::Alu(AluOp::Cpx, Mode::ZeroPage)),
            0xe5 => Some(Op::Alu(AluOp::Sbc, Mode::ZeroPage)),
            0xe6 => Some(Op::RmwMem(RmwOp::Inc, Mode::ZeroPage)),
            0xe8 => Some(Op::Inx),
            0xe9 => Some(Op::Alu(AluOp::Sbc, Mode::Immediate)),
            0xea => Some(Op::Nop),
            0xec => Some(Op::Alu(AluOp::Cpx, Mode::Absolute)),
            0xed => Some(Op::Alu(AluOp::Sbc, Mode::Absolute)),
            0xee => Some(Op::RmwMem(RmwOp::Inc, Mode::Absolute)),
            0xf0 => Some(Op::Beq),
            0xf1 => Some(Op::Alu(AluOp::Sbc, Mode::IndirectY)),
            0xf5 => Some(Op::Alu(AluOp::Sbc, Mode::ZeroPageX)),
            0xf6 => Some(Op::RmwMem(RmwOp::Inc, Mode::ZeroPageX)),
            0xf8 => Some(Op::Sed),
            0xf9 => Some(Op::Alu(AluOp::Sbc, Mode::AbsoluteY)),
            0xfd => Some(Op::Alu(AluOp::Sbc, Mode::AbsoluteX)),
            0xfe => Some(Op::RmwMem(RmwOp::Inc, Mode::AbsoluteX)),
        _ => None,
    }
}

impl CPU {
    fn apply_alu(&mut self, op: AluOp, v: u8)
        ensures
            final(self)@ == spec_apply_alu(old(self)@, op, v),
    {
        match op {
            AluOp::Adc => self.adc(v),
            AluOp::And => self.and(v),
            AluOp::Bit => self.bit(v),
            AluOp::Cmp => self.cmp(v),
            AluOp::Cpx => self.cpx(v),
            AluOp::Cpy => self.cpy(v),
            AluOp::Eor => self.eor(v),
            AluOp::Lda => self.lda(v),
            AluOp::Ldx => self.ldx(v),
            AluOp::Ldy => self.ldy(v),
            AluOp::Ora => self.ora(v),
            AluOp::Sbc => self.sbc(v),
        }
    }

    fn alu(&mut self, op: AluOp, m: Mode) -> (r: Result<(), EmuError>)
        requires
            spec_cpu_wf(old(self)@),
        ensures
            final(self)@ == spec_alu(old(self)@, op, m).0,
            r == spec_alu(old(self)@, op, m).1,
            spec_cpu_wf(final(self)@),
    {
        let va = self.operand(m)?;
        self.apply_alu(op, va.0);
        Ok(())
    }

    fn apply_rmw(&mut self, op: RmwOp, v: u8) -> (r: u8)
        ensures
            final(self)@ == spec_apply_rmw(old(self)@, op, v).0,
            r == spec_apply_rmw(old(self)@, op, v).1,
    {
        match op {
            RmwOp::Asl => self.asl(v),
            RmwOp::Dec => self.dec(v),
            RmwOp::Inc => self.inc(v),
            RmwOp::Lsr => self.lsr(v),
            RmwOp::Rol => self.rol(v),
            RmwOp::Ror => self.ror(v),
        }
    }

    fn rmw_mem(&mut self, op: RmwOp, m: Mode) -> (r: Result<(), EmuError>)
        requires
            spec_cpu_wf(old(self)@),
        ensures
            final(self)@ == spec_rmw_mem(old(self)@, op, m).0,
            r == spec_rmw_mem(old(self)@, op, m).1,
            spec_cpu_wf(final(self)@),
    {
        let va = self.operand(m)?;
        let result = self.apply_rmw(op, va.0);
        self.write_mem(va.1, result)
    }

    fn rmw_acc(&mut self, op: RmwOp)
        ensures
            final(self)@ == spec_rmw_acc(old(self)@, op),
    {
        let v = self.accum;
        let result = self.apply_rmw(op, v);
        self.accum = result;
        self.pc = self.pc.wrapping_add(1);
    }

    fn store(&mut self, reg: Reg, m: Mode) -> (r: Result<(), EmuError>)
        requires
            spec_cpu_wf(old(self)@),
        ensures
            final(self)@ == spec_store(old(self)@, reg, m).0,
            r == spec_store(old(self)@, reg, m).1,
            spec_cpu_wf(final(self)@),
    {
        let va = self.operand(m)?;
        let v = match reg {
            Reg::A => self.accum,
            Reg::X => self.rx,
            Reg::Y => self.ry,
        };
        self.write_mem(va.1, v)
    }

    fn jmp_absolute(&mut self) -> (r: Result<(), EmuError>)
        requires
            spec_cpu_wf(old(self)@),
        ensures
            final(self)@ == spec_jmp_abs(old(self)@).0,
            r == spec_jmp_abs(old(self)@).1,
            spec_cpu_wf(final(self)@),
    {
        let lo = self.read_mem(self.pc.wrapping_add(1))?;
        let hi = self.read_mem(self.pc.wrapping_add(2))?;
        self.pc = join_hi_low(lo, hi);
        Ok(())
    }

    /// Reproduces the original hardware's page-boundary bug: a vector at
    /// 0xxxff takes its high byte from the start of the same page.
    fn jmp_indirect(&mut self) -> (r: Result<(), EmuError>)
        requires
            spec_cpu_wf(old(self)@),
        ensures
            final(self)@ == spec_jmp_ind(old(self)@).0,
            r == spec_jmp_ind(old(self)@).1,
            spec_cpu_wf(final(self)@),
    {
        let lo_ind = self.read_mem(self.pc.wrapping_add(1))?;
        let hi_ind = self.read_mem(self.pc.wrapping_add(2))?;
        let page = (hi_ind as u16) << 8;
        let lo = self.read_mem(page | (lo_ind as u16))?;
        let hi = self.read_mem(page | (lo_ind.wrapping_add(1) as u16))?;
        self.pc = join_hi_low(lo, hi);
        Ok(())
    }

    fn jsr(&mut self) -> (r: Result<(), EmuError>)
        requires
            spec_cpu_wf(old(self)@),
        ensures
            final(self)@ == spec_jsr(old(self)@).0,
            r == spec_jsr(old(self)@).1,
            spec_cpu_wf(final(self)@),
    {
        let ret = self.pc.wrapping_add(2);
        let lo_hi = as_lo_hi(ret);
        self.stack_push(lo_hi.1);
        self.stack_push(lo_hi.0);
        let lo = self.read_mem(self.pc.wrapping_add(1))?;
        let hi = self.read_mem(self.pc.wrapping_add(2))?;
        self.pc = join_hi_low(lo, hi);
        Ok(())
    }

    fn brk(&mut self)
        requires
            spec_cpu_wf(old(self)@),
        ensures
            final(self)@ == spec_brk(old(self)@),
            spec_cpu_wf(final(self)@),
    {
        let lo_hi = as_lo_hi(self.pc);
        self.stack_push(lo_hi.1);
        self.stack_push(lo_hi.0);
        let p = self.st | 0x10;
        self.stack_push(p);
        let lo = match self.read_mem(BRK_IH) {
            Ok(v) => v,
            Err(_) => vstd::pervasive::unreached(),
        };
        let hi = match self.read_mem(BRK_IH + 1) {
            Ok(v) => v,
            Err(_) => vstd::pervasive::unreached(),
        };
        self.pc = join_hi_low(lo, hi)
    }

    #[verifier::rlimit(100)]
    #[verifier::spinoff_prover]
    fn run_instr(&mut self, instr: Op) -> (r: Result<(), EmuError>)
        requires
            spec_cpu_wf(old(self)@),
        ensures
            final(self)@ == spec_run(old(self)@, instr).0,
            r == spec_run(old(self)@, instr).1,
            spec_cpu_wf(final(self)@),
    {
        match instr {
            Op::Alu(op, m) => self.alu(op, m),
            Op::RmwMem(op, m) => self.rmw_mem(op, m),
            Op::RmwAcc(op) => {
                self.rmw_acc(op);
                Ok(())
            },
            Op::Store(reg, m) => self.store(reg, m),
            Op::Bcc => self.branch(CARRY_BIT, 0),
            Op::Bcs => self.branch(CARRY_BIT, 1),
            Op::Beq => self.branch(ZERO_BIT, 1),
            Op::Bne => self.branch(ZERO_BIT, 0),
            Op::Bmi => self.branch(NEGATIVE_BIT, 1),
            Op::Bpl => self.branch(NEGATIVE_BIT, 0),
            Op::Bvc => self.branch(OVERFLOW_BIT, 0),
            Op::Bvs => self.branch(OVERFLOW_BIT, 1),
            Op::Brk => {
                self.brk();
                Ok(())
            },
            Op::Clc => {
                self.clear_carry();
                self.pc = self.pc.wrapping_add(1);
                Ok(())
            },
            Op::Cld => {
                self.clear_decimal();
                self.pc = self.pc.wrapping_add(1);
                Ok(())
            },
            Op::Cli => {
                self.clear_interrupt_disable();
                self.pc = self.pc.wrapping_add(1);
                Ok(())
            },
            Op::Clv => {
                self.clear_overflow();
                self.pc = self.pc.wrapping_add(1);
                Ok(())
            },
            Op::Dex => {
                let result = self.rx.wrapping_sub(1);
                self.cond_set_zero(result == 0);
                self.cond_set_neg(msb(result) == 1);
                self.rx = result;
                self.pc = self.pc.wrapping_add(1);
                Ok(())
            },
            Op::Dey => {
                let result = self.ry.wrapping_sub(1);
                self.cond_set_zero(result == 0);
                self.cond_set_neg(msb(result) == 1);
                self.ry = result;
                self.pc = self.pc.wrapping_add(1);
                Ok(())
            },
            Op::Inx => {
                let result = self.rx.wrapping_add(1);
                self.cond_set_zero(result == 0);
                self.cond_set_neg(msb(result) == 1);
                self.rx = result;
                self.pc = self.pc.wrapping_add(1);
                Ok(())
            },
            Op::Iny => {
                let result = self.ry.wrapping_add(1);
                self.cond_set_zero(result == 0);
                self.cond_set_neg(msb(result) == 1);
                self.ry = result;
                self.pc = self.pc.wrapping_add(1);
                Ok(())
            },
            Op::JmpAbs => self.jmp_absolute(),
            Op::JmpInd => self.jmp_indirect(),
            Op::Jsr => self.jsr(),
            Op::Nop => {
                self.pc = self.pc.wrapping_add(1);
                Ok(())
            },
            Op::Pha => {
                let v = self.accum;
                self.stack_push(v);
                self.pc = self.pc.wrapping_add(1);
                Ok(())
            },
            Op::Php => {
                let p = self.st & !(1u8 << BREAK_BIT);
                self.stack_push(p);
                self.pc = self.pc.wrapping_add(1);
                Ok(())
            },
            Op::Pla => {
                let next_accum = self.stack_pop();
                self.cond_set_zero(next_accum == 0);
                self.cond_set_neg(msb(next_accum) == 1);
                self.accum = next_accum;
                self.pc = self.pc.wrapping_add(1);
                Ok(())
            },
            Op::Plp => {
                let next_st = self.stack_pop();
                self.st = next_st;
                self.pc = self.pc.wrapping_add(1);
                Ok(())
            },
            Op::Rti => {
                self.st = self.stack_pop();
                let lo = self.stack_pop();
                let hi = self.stack_pop();
                self.pc = join_hi_low(lo, hi);
                Ok(())
            },
            Op::Rts => {
                let lo = self.stack_pop();
                let hi = self.stack_pop();
                self.pc = join_hi_low(lo, hi).wrapping_add(1);
                Ok(())
            },
            Op::Sec => {
                self.set_carry();
                self.pc = self.pc.wrapping_add(1);
                Ok(())
            },
            Op::Sed => {
                self.set_decimal();
                self.pc = self.pc.wrapping_add(1);
                Ok(())
            },
            Op::Sei => {
                self.set_interrupt_disable();
                self.pc = self.pc.wrapping_add(1);
                Ok(())
            },
            Op::Tax => {
                self.rx = self.accum;
                self.cond_set_zero(self.rx == 0);
                self.cond_set_neg(msb(self.rx) == 1);
                self.pc = self.pc.wrapping_add(1);
                Ok(())
            },
            Op::Tay => {
                self.ry = self.accum;
                self.cond_set_zero(self.ry == 0);
                self.cond_set_neg(msb(self.ry) == 1);
                self.pc = self.pc.wrapping_add(1);
                Ok(())
            },
            Op::Tsx => {
                self.rx = self.sp;
                self.cond_set_zero(self.rx == 0);
                self.cond_set_neg(msb(self.rx) == 1);
                self.pc = self.pc.wrapping_add(1);
                Ok(())
            },
            Op::Txa => {
                self.accum = self.rx;
                self.cond_set_zero(self.accum == 0);
                self.cond_set_neg(msb(self.accum) == 1);
                self.pc = self.pc.wrapping_add(1);
                Ok(())
            },
            Op::Txs => {
                self.sp = self.rx;
                self.pc = self.pc.wrapping_add(1);
                Ok(())
            },
            Op::Tya => {
                self.accum = self.ry;
                self.cond_set_zero(self.accum == 0);
                self.cond_set_neg(msb(self.accum) == 1);
                self.pc = self.pc.wrapping_add(1);
                Ok(())
            },
        }
    }

    /// Decodes and executes one opcode; an opcode outside the legal set is
    /// an unrecoverable fault carrying the opcode and its address.
    fn exec_opcode(&mut self, opcode: u8) -> (r: Result<(), EmuError>)
        requires
            spec_cpu_wf(old(self)@),
        ensures
            final(self)@ == spec_exec_opcode(old(self)@, opcode).0,
            r == spec_exec_opcode(old(self)@, opcode).1,
            spec_cpu_wf(final(self)@),
    {
        match decode(opcode) {
            Some(instr) => self.run_instr(instr),
            None => Err(EmuError::IllegalOpcode { opcode, addr: self.pc }),
        }
    }

    /// Services the pending non-maskable interrupt at an instruction
    /// boundary: edge-triggered, so the request pin is cleared first.
    fn nmi_interrupt(&mut self)
        requires
            spec_cpu_wf(old(self)@),
        ensures
            final(self)@ == spec_nmi(old(self)@),
            spec_cpu_wf(final(self)@),
    {
        self.bus.ppu.clear_generate_nmi();
        let lo_hi = as_lo_hi(self.pc);
        self.stack_push(lo_hi.1);
        self.stack_push(lo_hi.0);
        let p = (self.st | 0x20) & !0x10;
        self.stack_push(p);
        self.set_interrupt_disable();
        let lo = match self.read_mem(NON_MASKABLE_IH) {
            Ok(v) => v,
            Err(_) => vstd::pervasive::unreached(),
        };
        let hi = match self.read_mem(NON_MASKABLE_IH + 1) {
            Ok(v) => v,
            Err(_) => vstd::pervasive::unreached(),
        };
        self.pc = join_hi_low(lo, hi)
    }

    /// One instruction boundary: services a pending NMI, fetches and
    /// executes the opcode at the program counter, and returns the trace
    /// snapshot taken between fetch and execution. The cycle counter pays
    /// one cycle for the fetch, a floor of two per instruction, and one per
    /// stack access.
    pub fn step(&mut self) -> (r: Result<CpuState, EmuError>)
        requires
            spec_cpu_wf(old(self)@),
        ensures
            final(self)@ == spec_step(old(self)@).0,
            r == spec_step(old(self)@).1,
            spec_cpu_wf(final(self)@),
    {
        let start_cycles = self.cycles;
        self.stack_push_count = 0;
        self.stack_pop_count = 0;
        if self.bus.ppu.poll_generate_nmi() {
            self.nmi_interrupt();
        }
        let opcode = match self.read_mem(self.pc) {
            Ok(v) => v,
            Err(e) => {
                return Err(e);
            },
        };
        self.cycles = self.cycles.wrapping_add(1);
        let mut state = CpuState {
            addr: self.pc,
            opcode,
            a: self.accum,
            x: self.rx,
            y: self.ry,
            p: 0,
            sp: self.sp,
            cycles: start_cycles,
        };
        state.set_status(self.st);
        match self.exec_opcode(opcode) {
            Ok(u) => {},
            Err(e) => {
                return Err(e);
            },
        }
        if self.cycles.wrapping_sub(start_cycles) == 1 {
            self.cycles = self.cycles.wrapping_add(1);
        }
        self.cycles = self.cycles.wrapping_add(
            self.stack_push_count as u64 + self.stack_pop_count as u64,
        );
        Ok(state)
    }

    /// Runs `n` instruction boundaries and collects one trace snapshot per
    /// step; a fault stops the run where it stands.
    #[verifier::rlimit(100)]
    #[verifier::spinoff_prover]
    pub fn run_debug(&mut self, n: u64) -> (r: Result<Vec<CpuState>, EmuError>)
        requires
            spec_cpu_wf(old(self)@),
        ensures
            final(self)@ == spec_run_debug(old(self)@, n as nat).0,
            ({
                let rf = spec_run_debug(old(self)@, n as nat).1;
                match r {
                    Ok(v) => rf is Ok && v@ == rf->Ok_0,
                    Err(e) => rf == Err::<Seq<CpuState>, EmuError>(e),
                }
            }),
            spec_cpu_wf(final(self)@),
    {
        let mut states: Vec<CpuState> = Vec::new();
        let mut i: u64 = 0;
        while i < n
            invariant
                spec_cpu_wf(self@),
                i <= n,
                spec_run_debug(old(self)@, n as nat) == ({
                    let (c2, r2) = spec_run_debug(self@, (n - i) as nat);
                    (
                        c2,
                        match r2 {
                            Ok(rest) => Ok::<Seq<CpuState>, EmuError>(states@ + rest),
                            Err(e) => Err::<Seq<CpuState>, EmuError>(e),
                        },
                    )
                }),
            decreases n - i,
        {
            let ghost pre = self@;
            let ghost m = (n - i) as nat;
            match self.step() {
                Ok(s) => {
                    let ghost prev = states@;
                    states.push(s);
                    proof {
                        let (c2, r2) = spec_run_debug(self@, (m - 1) as nat);
                        if r2 is Ok {
                            assert(prev + (seq![s] + r2->Ok_0) =~= states@ + r2->Ok_0);
                        }
                    }
                },
                Err(e) => {
                    return Err(e);
                },
            }
            i = i + 1;
        }
        proof {
            assert(states@ + Seq::<CpuState>::empty() =~= states@);
        }
        Ok(states)
    }
}

} // verus!
