//! The register machine: two 16-bit registers, an execution address, a ROM
//! holding the program, a RAM, and the outputs of the last ALU operation.
//! Each tick runs exactly one instruction, or fails and changes nothing.
use vstd::prelude::*;
use crate::alu::{
    add16_result, and16_result, complement_result, inc16_result, neg16_result, or16_result,
    outputs, pass16_result, rot16l_result, rot16r_result, shift16l_result, shift16r_result,
    sub16_result, ushift16l_result, ushift16r_result, xor16_result, Alu, AluOutputs, CJEmuAlu,
};
use crate::memory::{filled, overlaid, Ram, ReadableMemory, Rom, WritableMemory};
use crate::opcode::{decode, Opcode};

verus! {

/// Why a tick failed.
#[derive(Copy, Clone, Debug, PartialEq, Eq, Structural)]
pub enum TickError {
    /// The byte at the execution address encodes no instruction.
    UnrecognizedOpcode(u8),
    /// An instruction read or wrote memory outside a bank, at this address.
    MemoryFault(u16),
}

/// A machine holding a read-only and a writable memory bank.
pub trait VirtualMachine<ReadOnly: ReadableMemory, ReadWrite: ReadableMemory>: Sized {
    /// Why a tick can fail.
    type TickErrorTy;

    spec fn spec_last_alu(&self) -> AluOutputs;

    spec fn spec_reg_a(&self) -> u16;

    spec fn spec_reg_b(&self) -> u16;

    spec fn rom_contents(&self) -> Seq<u8>;

    spec fn ram_contents(&self) -> Seq<u8>;

    /// Whether one tick from `self` may end in `next` with result `r`.
    spec fn ticks_to(&self, next: &Self, r: Result<(), Self::TickErrorTy>) -> bool;

    /// The outputs of the last ALU operation.
    fn last_alu(&self) -> (r: AluOutputs)
        ensures
            r == self.spec_last_alu(),
            r.consistent(),
    ;

    /// The `A` register.
    fn reg_a(&self) -> (r: u16)
        ensures
            r == self.spec_reg_a(),
    ;

    /// The `B` register.
    fn reg_b(&self) -> (r: u16)
        ensures
            r == self.spec_reg_b(),
    ;

    /// The read-only memory.
    fn rom(&self) -> (r: &ReadOnly)
        ensures
            r.contents() == self.rom_contents(),
    ;

    /// The writable memory.
    fn ram(&self) -> (r: &ReadWrite)
        ensures
            r.contents() == self.ram_contents(),
    ;

    /// Runs one instruction. A failed tick leaves the machine as it was.
    fn perform_tick(&mut self) -> (r: Result<(), Self::TickErrorTy>)
        ensures
            old(self).ticks_to(final(self), r),
            r is Err ==> *final(self) == *old(self),
    ;
}

/// What a machine holds.
pub struct MachineView {
    pub last_alu: AluOutputs,
    pub reg_a: u16,
    pub reg_b: u16,
    /// The address of the next instruction in ROM.
    pub pc: u16,
    pub rom: Seq<u8>,
    pub ram: Seq<u8>,
}

/// The 16-bit value whose bytes are `lo` and `hi`.
pub open spec fn word(lo: u8, hi: u8) -> u16 {
    (lo + 256 * hi) as u16
}

pub open spec fn low_byte(v: u16) -> u8 {
    (v % 256) as u8
}

pub open spec fn high_byte(v: u16) -> u8 {
    (v / 256) as u8
}

/// The ROM byte `k` places after the opcode byte, or zero past the end.
pub open spec fn operand(s: MachineView, k: int) -> u8 {
    if s.pc + k < s.rom.len() {
        s.rom[s.pc + k]
    } else {
        0
    }
}

/// `A` and the ALU outputs take the result `o`.
pub open spec fn into_a(s: MachineView, o: AluOutputs) -> MachineView {
    MachineView { reg_a: o.value, last_alu: o, ..s }
}

/// `B` and the ALU outputs take the result `o`.
pub open spec fn into_b(s: MachineView, o: AluOutputs) -> MachineView {
    MachineView { reg_b: o.value, last_alu: o, ..s }
}

/// Stores the byte `v` at RAM address `addr`.
pub open spec fn store8(s: MachineView, addr: u16, v: u8) -> Result<MachineView, TickError> {
    if addr < s.ram.len() {
        Ok(MachineView { ram: s.ram.update(addr as int, v), ..s })
    } else {
        Err(TickError::MemoryFault(addr))
    }
}

/// Stores `v` at RAM addresses `addr` and `addr + 1`, low byte first.
pub open spec fn store16(s: MachineView, addr: u16, v: u16) -> Result<MachineView, TickError> {
    if addr >= s.ram.len() {
        Err(TickError::MemoryFault(addr))
    } else if addr + 1 >= s.ram.len() {
        Err(TickError::MemoryFault((addr + 1) as u16))
    } else {
        Ok(
            MachineView {
                ram: s.ram.update(addr as int, low_byte(v)).update(addr + 1, high_byte(v)),
                ..s
            },
        )
    }
}

/// The effect of `op` with operand bytes `x` and `y` on `s`, whose execution
/// address has already moved past the instruction.
pub open spec fn execute(s: MachineView, op: Opcode, x: u8, y: u8) -> Result<MachineView, TickError> {
    let a = s.reg_a;
    let b = s.reg_b;
    match op {
        Opcode::NoOp => Ok(s),
        Opcode::LdA16 => Ok(MachineView { reg_a: word(x, y), ..s }),
        Opcode::LdB16 => Ok(MachineView { reg_b: word(x, y), ..s }),
        Opcode::StA16 => store16(s, word(x, y), a),
        Opcode::StB16 => store16(s, word(x, y), b),
        Opcode::LdA8 => Ok(MachineView { reg_a: x as u16, ..s }),
        Opcode::LdB8 => Ok(MachineView { reg_b: x as u16, ..s }),
        Opcode::StA8 => store8(s, x as u16, low_byte(a)),
        Opcode::StB8 => store8(s, x as u16, low_byte(b)),
        Opcode::Add => Ok(into_a(s, add16_result(a, b))),
        Opcode::Sub => Ok(into_a(s, sub16_result(a, b))),
        Opcode::NegA => Ok(into_a(s, neg16_result(a))),
        Opcode::NegB => Ok(into_b(s, neg16_result(b))),
        Opcode::IncA => Ok(into_a(s, inc16_result(a))),
        Opcode::IncB => Ok(into_b(s, inc16_result(b))),
        Opcode::PassA => Ok(MachineView { last_alu: pass16_result(a), ..s }),
        Opcode::PassB => Ok(MachineView { last_alu: pass16_result(b), ..s }),
        Opcode::And => Ok(into_a(s, and16_result(a, b))),
        Opcode::Or => Ok(into_a(s, or16_result(a, b))),
        Opcode::XOr => Ok(into_a(s, xor16_result(a, b))),
        Opcode::BitFlpA => Ok(into_a(s, complement_result(a))),
        Opcode::BitFlpB => Ok(into_b(s, complement_result(b))),
        Opcode::ShftL => Ok(into_a(s, shift16l_result(a, b))),
        Opcode::ShftR => Ok(into_a(s, shift16r_result(a, b))),
        Opcode::UShftL => Ok(into_a(s, ushift16l_result(a, b))),
        Opcode::UShftR => Ok(into_a(s, ushift16r_result(a, b))),
        Opcode::RotL => Ok(into_a(s, rot16l_result(a, b))),
        Opcode::RotR => Ok(into_a(s, rot16r_result(a, b))),
    }
}

/// One tick: fetch the opcode byte at the execution address, decode it, read
/// its operand bytes, move the execution address past the instruction and
/// apply its effect. Any failure leaves the machine as it was.
pub open spec fn tick(s: MachineView) -> Result<MachineView, TickError> {
    if s.pc >= s.rom.len() {
        Err(TickError::MemoryFault(s.pc))
    } else {
        match decode(s.rom[s.pc as int]) {
            None => Err(TickError::UnrecognizedOpcode(s.rom[s.pc as int])),
            Some(op) => if s.pc + op.length() > s.rom.len() {
                Err(TickError::MemoryFault(s.rom.len() as u16))
            } else {
                execute(
                    MachineView { pc: (s.pc + op.length()) as u16, ..s },
                    op,
                    operand(s, 1),
                    operand(s, 2),
                )
            },
        }
    }
}

/// The machine of this crate.
pub struct CJEmuVirtualMachine {
    last_alu: AluOutputs,
    reg_a: u16,
    reg_b: u16,
    pc: u16,
    rom: Rom,
    ram: Ram,
}

impl View for CJEmuVirtualMachine {
    type V = MachineView;

    closed spec fn view(&self) -> MachineView {
        MachineView {
            last_alu: self.last_alu,
            reg_a: self.reg_a,
            reg_b: self.reg_b,
            pc: self.pc,
            rom: self.rom.contents(),
            ram: self.ram.contents(),
        }
    }
}

fn word_of(lo: u8, hi: u8) -> (r: u16)
    ensures
        r == word(lo, hi),
{
    lo as u16 + hi as u16 * 256
}

impl CJEmuVirtualMachine {
    #[verifier::type_invariant]
    spec fn alu_consistent(self) -> bool {
        self.last_alu.consistent()
    }

    /// A machine with zero-filled banks of the given sizes, zero registers,
    /// the execution address at zero, and the outputs of passing zero.
    pub fn new(rom_size: u16, ram_size: u16) -> (r: Self)
        ensures
            r@.last_alu == outputs(0, false, false),
            r@.reg_a == 0,
            r@.reg_b == 0,
            r@.pc == 0,
            r@.rom == filled(0, rom_size as nat),
            r@.ram == filled(0, ram_size as nat),
    {
        CJEmuVirtualMachine {
            last_alu: AluOutputs::default(),
            reg_a: 0,
            reg_b: 0,
            pc: 0,
            rom: Rom::new(0, rom_size),
            ram: Ram::new(0, ram_size),
        }
    }

    /// The address in ROM of the next instruction.
    pub fn pc(&self) -> (r: u16)
        ensures
            r == self@.pc,
    {
        self.pc
    }

    /// Writes a program image over the start of ROM. An image longer than
    /// ROM is refused and nothing changes.
    pub fn load_rom(&mut self, image: &[u8]) -> (r: Option<()>)
        ensures
            image@.len() <= old(self)@.rom.len() ==> r == Some(())
                && final(self)@ == (MachineView { rom: overlaid(old(self)@.rom, image@), ..old(self)@ }),
            image@.len() > old(self)@.rom.len() ==> r is None && final(self)@ == old(self)@,
    {
        proof {
            use_type_invariant(&*self);
        }
        let mut rom = Rom::new(0, 0);
        std::mem::swap(&mut self.rom, &mut rom);
        let r = rom.load(image);
        std::mem::swap(&mut self.rom, &mut rom);
        r
    }

    /// The ROM byte `k` places after the opcode byte, or zero past the end.
    fn operand_byte(&self, k: u16) -> (r: u8)
        requires
            k <= 2,
        ensures
            r == operand(self@, k as int),
    {
        let size = self.rom.size();
        if (self.pc as u32) + (k as u32) < size as u32 {
            match self.rom.byte(self.pc + k) {
                Some(v) => v,
                None => 0,
            }
        } else {
            0
        }
    }

    /// Stores the byte `v` at RAM address `addr`; out of bounds nothing
    /// changes.
    fn store8(&mut self, addr: u16, v: u8) -> (r: Result<(), TickError>)
        ensures
            match store8(old(self)@, addr, v) {
                Ok(n) => r is Ok && final(self)@ == n,
                Err(e) => r == Err::<(), TickError>(e) && *final(self) == *old(self),
            },
    {
        proof {
            use_type_invariant(&*self);
        }
        if addr >= self.ram.size() {
            return Err(TickError::MemoryFault(addr));
        }
        let mut ram = Ram::new(0, 0);
        std::mem::swap(&mut self.ram, &mut ram);
        ram.set_byte(addr, v);
        std::mem::swap(&mut self.ram, &mut ram);
        Ok(())
    }

    /// Stores `v` at RAM addresses `addr` and `addr + 1`, low byte first; if
    /// either is out of bounds nothing changes.
    fn store16(&mut self, addr: u16, v: u16) -> (r: Result<(), TickError>)
        ensures
            match store16(old(self)@, addr, v) {
                Ok(n) => r is Ok && final(self)@ == n,
                Err(e) => r == Err::<(), TickError>(e) && *final(self) == *old(self),
            },
    {
        proof {
            use_type_invariant(&*self);
        }
        let size = self.ram.size();
        if addr >= size {
            return Err(TickError::MemoryFault(addr));
        }
        if addr + 1 >= size {
            return Err(TickError::MemoryFault(addr + 1));
        }
        let mut ram = Ram::new(0, 0);
        std::mem::swap(&mut self.ram, &mut ram);
        ram.set_byte(addr, (v % 256) as u8);
        ram.set_byte(addr + 1, (v / 256) as u8);
        std::mem::swap(&mut self.ram, &mut ram);
        Ok(())
    }

    /// `A` and the ALU outputs take the result `o`.
    fn latch_a(&mut self, o: AluOutputs)
        requires
            o.consistent(),
        ensures
            final(self)@ == into_a(old(self)@, o),
    {
        proof {
            use_type_invariant(&*self);
        }
        self.reg_a = o.value;
        self.last_alu = o;
    }

    /// `B` and the ALU outputs take the result `o`.
    fn latch_b(&mut self, o: AluOutputs)
        requires
            o.consistent(),
        ensures
            final(self)@ == into_b(old(self)@, o),
    {
        proof {
            use_type_invariant(&*self);
        }
        self.reg_b = o.value;
        self.last_alu = o;
    }
}

impl VirtualMachine<Rom, Ram> for CJEmuVirtualMachine {
    type TickErrorTy = TickError;

    open spec fn spec_last_alu(&self) -> AluOutputs {
        self@.last_alu
    }

    open spec fn spec_reg_a(&self) -> u16 {
        self@.reg_a
    }

    open spec fn spec_reg_b(&self) -> u16 {
        self@.reg_b
    }

    open spec fn rom_contents(&self) -> Seq<u8> {
        self@.rom
    }

    open spec fn ram_contents(&self) -> Seq<u8> {
        self@.ram
    }

    open spec fn ticks_to(&self, next: &Self, r: Result<(), TickError>) -> bool {
        match tick(self@) {
            Ok(n) => r is Ok && next@ == n,
            Err(e) => r == Err::<(), TickError>(e) && next@ == self@,
        }
    }

    fn last_alu(&self) -> (r: AluOutputs) {
        proof {
            use_type_invariant(self);
        }
        self.last_alu
    }

    fn reg_a(&self) -> (r: u16) {
        self.reg_a
    }

    fn reg_b(&self) -> (r: u16) {
        self.reg_b
    }

    fn rom(&self) -> (r: &Rom) {
        &self.rom
    }

    fn ram(&self) -> (r: &Ram) {
        &self.ram
    }

    fn perform_tick(&mut self) -> (r: Result<(), TickError>) {
        proof {
            use_type_invariant(&*self);
        }
        let opcode_byte = match self.rom.byte(self.pc) {
            Some(v) => v,
            None => return Err(TickError::MemoryFault(self.pc)),
        };
        let op = match Opcode::from_byte(opcode_byte) {
            Some(op) => op,
            None => return Err(TickError::UnrecognizedOpcode(opcode_byte)),
        };
        let size = self.rom.size();
        let len = op.len();
        if self.pc as u32 + len as u32 > size as u32 {
            return Err(TickError::MemoryFault(size));
        }
        let x = self.operand_byte(1);
        let y = self.operand_byte(2);
        let a = self.reg_a;
        let b = self.reg_b;
        let mut alu = CJEmuAlu {};
        match op {
            Opcode::StA16 => {
                self.store16(word_of(x, y), a)?;
            },
            Opcode::StB16 => {
                self.store16(word_of(x, y), b)?;
            },
            Opcode::StA8 => {
                self.store8(x as u16, (a % 256) as u8)?;
            },
            Opcode::StB8 => {
                self.store8(x as u16, (b % 256) as u8)?;
            },
            Opcode::NoOp => {},
            Opcode::LdA16 => {
                self.reg_a = word_of(x, y);
            },
            Opcode::LdB16 => {
                self.reg_b = word_of(x, y);
            },
            Opcode::LdA8 => {
                self.reg_a = x as u16;
            },
            Opcode::LdB8 => {
                self.reg_b = x as u16;
            },
            Opcode::Add => self.latch_a(alu.add16(a, b)),
            Opcode::Sub => self.latch_a(alu.sub16(a, b)),
            Opcode::NegA => self.latch_a(alu.neg16(a)),
            Opcode::NegB => self.latch_b(alu.neg16(b)),
            Opcode::IncA => self.latch_a(alu.inc16(a)),
            Opcode::IncB => self.latch_b(alu.inc16(b)),
            Opcode::PassA => {
                self.last_alu = alu.pass16(a);
            },
            Opcode::PassB => {
                self.last_alu = alu.pass16(b);
            },
            Opcode::And => self.latch_a(alu.and16(a, b)),
            Opcode::Or => self.latch_a(alu.or16(a, b)),
            Opcode::XOr => self.latch_a(alu.xor16(a, b)),
            Opcode::BitFlpA => self.latch_a(alu.complement(a)),
            Opcode::BitFlpB => self.latch_b(alu.complement(b)),
            Opcode::ShftL => self.latch_a(alu.shift16l(a, b)),
            Opcode::ShftR => self.latch_a(alu.shift16r(a, b)),
            Opcode::UShftL => self.latch_a(alu.ushift16l(a, b)),
            Opcode::UShftR => self.latch_a(alu.ushift16r(a, b)),
            Opcode::RotL => self.latch_a(alu.rot16l(a, b)),
            Opcode::RotR => self.latch_a(alu.rot16r(a, b)),
        }
        self.pc = self.pc + len;
        Ok(())
    }
}

/// A tick never writes ROM, never changes the size of RAM, and leaves ALU
/// outputs whose flags agree with their value.
pub proof fn lemma_tick_keeps_rom(s: MachineView)
    requires
        s.last_alu.consistent(),
    ensures
        tick(s) matches Ok(n) ==> n.rom == s.rom && n.ram.len() == s.ram.len()
            && n.last_alu.consistent(),
{
}

} // verus!
