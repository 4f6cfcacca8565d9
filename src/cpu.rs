//! The processor: register file, memory, interrupt latch, and the
//! instruction interpreter.
//!
//! Every transition is stated over [`State`], the abstract value of a
//! [`CPU`]: `execute` refines [`execute_spec`] and `run_once` refines
//! [`step_spec`].

use crate::isa::{
    acknowledge, alu_apply, alu_flags, call, condition_holds, dad, daa, dcr, dcx,
    exec_instruction, execute_spec, inr, inx, lda, ldax, lhld, lxi, mov, mvi, pop_pair, push_pair,
    ral, rar, ret, rlc, rrc, rst, shld, sta, stax, step_spec, xchg, xthl,
};
use crate::opcode::{AluOp, Condition, Instruction, Pair};
use crate::register::{
    Flag, Register, aux_of, carry_of, fixed_bits_ok, pack_flags, parity_of, sign_of, zero_of,
};
use vstd::prelude::*;

verus! {

broadcast use crate::register::lemma_pack_flags;

/// The abstract state of the processor.
///
/// `regs` holds B, C, D, E, H and L at indices 0 to 5; `f` is the flag
/// byte; `mem` is the whole memory, of whatever length the caller gave.
pub struct State {
    pub a: u8,
    pub f: u8,
    pub regs: Seq<u8>,
    pub sp: u16,
    pub pc: u16,
    pub mem: Seq<u8>,
    pub interrupts_enabled: bool,
    pub interrupt_pending: bool,
    pub interrupt_vector: u16,
    pub halted: bool,
}

/// `x + n` on sixteen bits, wrapping.
pub open spec fn add16(x: u16, n: int) -> u16 {
    ((x + n) % 65536) as u16
}

/// The sixteen-bit word with high byte `h` and low byte `l`.
pub open spec fn compose(h: u8, l: u8) -> u16 {
    (h * 256 + l) as u16
}

/// The high and low bytes of a sixteen-bit word.
pub open spec fn decompose(x: u16) -> (u8, u8) {
    ((x / 256) as u8, (x % 256) as u8)
}

/// The byte at `addr`; an address past the end of memory reads as 0.
pub open spec fn read_mem(mem: Seq<u8>, addr: u16) -> u8 {
    if addr < mem.len() {
        mem[addr as int]
    } else {
        0
    }
}

/// Memory after storing `v` at `addr`; a store past the end of memory is
/// dropped.
pub open spec fn write_mem(mem: Seq<u8>, addr: u16, v: u8) -> Seq<u8> {
    if addr < mem.len() {
        mem.update(addr as int, v)
    } else {
        mem
    }
}

/// The number of one bits of `v`.
pub open spec fn popcount(v: nat) -> nat
    decreases v,
{
    if v == 0 {
        0
    } else {
        v % 2 + popcount(v / 2)
    }
}

/// Parity flag rule: set when the byte has an even number of one bits.
pub open spec fn even_parity(v: u8) -> bool {
    popcount(v as nat) % 2 == 0
}

/// The flag byte after an operation whose result byte is `r`: S, Z and P
/// come from `r`, AC and C are given.
pub open spec fn result_flags(r: u8, ac: bool, c: bool) -> u8 {
    pack_flags(r >= 128, r == 0, ac, even_parity(r), c)
}

/// The flag byte `f` with only the carry replaced.
pub open spec fn with_carry(f: u8, c: bool) -> u8 {
    pack_flags(sign_of(f), zero_of(f), aux_of(f), parity_of(f), c)
}

/// The flag byte `f` with only the auxiliary carry replaced.
pub open spec fn with_aux(f: u8, ac: bool) -> u8 {
    pack_flags(sign_of(f), zero_of(f), ac, parity_of(f), carry_of(f))
}

/// The flag byte `f` with only the zero flag replaced.
pub open spec fn with_zero(f: u8, z: bool) -> u8 {
    pack_flags(sign_of(f), z, aux_of(f), parity_of(f), carry_of(f))
}

/// The flag byte `f` with only the sign flag replaced.
pub open spec fn with_sign(f: u8, s: bool) -> u8 {
    pack_flags(s, zero_of(f), aux_of(f), parity_of(f), carry_of(f))
}

/// The flag byte `f` with only the parity flag replaced.
pub open spec fn with_parity(f: u8, p: bool) -> u8 {
    pack_flags(sign_of(f), zero_of(f), aux_of(f), p, carry_of(f))
}

impl State {
    /// The word in H and L, the address of the operand M.
    pub open spec fn hl(self) -> u16 {
        compose(self.regs[4], self.regs[5])
    }

    /// The byte after the opcode.
    pub open spec fn imm8(self) -> u8 {
        read_mem(self.mem, add16(self.pc, 1))
    }

    /// The little-endian word after the opcode.
    pub open spec fn imm16(self) -> u16 {
        compose(read_mem(self.mem, add16(self.pc, 2)), read_mem(self.mem, add16(self.pc, 1)))
    }

    /// The value of a register operand.
    pub open spec fn operand(self, r: Register) -> u8 {
        match r {
            Register::B => self.regs[0],
            Register::C => self.regs[1],
            Register::D => self.regs[2],
            Register::E => self.regs[3],
            Register::H => self.regs[4],
            Register::L => self.regs[5],
            Register::Mem => read_mem(self.mem, self.hl()),
            Register::Acc => self.a,
        }
    }

    /// The state with a register operand replaced.
    pub open spec fn with_operand(self, r: Register, v: u8) -> State {
        match r {
            Register::B => State { regs: self.regs.update(0, v), ..self },
            Register::C => State { regs: self.regs.update(1, v), ..self },
            Register::D => State { regs: self.regs.update(2, v), ..self },
            Register::E => State { regs: self.regs.update(3, v), ..self },
            Register::H => State { regs: self.regs.update(4, v), ..self },
            Register::L => State { regs: self.regs.update(5, v), ..self },
            Register::Mem => State { mem: write_mem(self.mem, self.hl(), v), ..self },
            Register::Acc => State { a: v, ..self },
        }
    }

    /// The value of a register pair; the fourth pair is SP.
    pub open spec fn pair(self, p: Pair) -> u16 {
        match p {
            Pair::BC => compose(self.regs[0], self.regs[1]),
            Pair::DE => compose(self.regs[2], self.regs[3]),
            Pair::HL => compose(self.regs[4], self.regs[5]),
            Pair::SP => self.sp,
        }
    }

    /// The state with a register pair replaced; the fourth pair is SP.
    pub open spec fn with_pair(self, p: Pair, v: u16) -> State {
        let (h, l) = decompose(v);
        match p {
            Pair::BC => State { regs: self.regs.update(0, h).update(1, l), ..self },
            Pair::DE => State { regs: self.regs.update(2, h).update(3, l), ..self },
            Pair::HL => State { regs: self.regs.update(4, h).update(5, l), ..self },
            Pair::SP => State { sp: v, ..self },
        }
    }

    /// The word that PUSH stores for a pair; the fourth pair is A and the
    /// flags.
    pub open spec fn stack_pair(self, p: Pair) -> u16 {
        match p {
            Pair::SP => compose(self.a, self.f),
            _ => self.pair(p),
        }
    }

    /// The state with PC advanced by `n`.
    pub open spec fn advance(self, n: int) -> State {
        State { pc: add16(self.pc, n), ..self }
    }

    /// The state after pushing a word: SP goes down by two, the high byte
    /// lands at SP - 1 and the low byte at SP - 2.
    pub open spec fn push(self, v: u16) -> State {
        let (h, l) = decompose(v);
        State {
            sp: add16(self.sp, -2),
            mem: write_mem(write_mem(self.mem, add16(self.sp, -1), h), add16(self.sp, -2), l),
            ..self
        }
    }

    /// The word on top of the stack: low byte at SP, high byte at SP + 1.
    pub open spec fn top(self) -> u16 {
        compose(read_mem(self.mem, add16(self.sp, 1)), read_mem(self.mem, self.sp))
    }

    /// The state after popping a word (which is `top()`): SP goes up by two.
    pub open spec fn pop(self) -> State {
        State { sp: add16(self.sp, 2), ..self }
    }
}

/// The state of a processor built from a memory image.
pub open spec fn initial_state(mem: Seq<u8>) -> State {
    State {
        a: 0,
        f: 0x02,
        regs: seq![0u8, 0u8, 0u8, 0u8, 0u8, 0u8],
        sp: (mem.len() % 65536) as u16,
        pc: 0,
        mem,
        interrupts_enabled: true,
        interrupt_pending: false,
        interrupt_vector: 0,
        halted: false,
    }
}

/// The processor: registers, flags, memory and the interrupt latch.
#[derive(Debug, Clone)]
pub struct CPU {
    /// The flag word (the low half of PSW).
    pub flag: Flag,
    /// B, C, D, E, H and L, in that order; H and L address the operand M.
    pub registers: [u8; 6],
    /// The accumulator.
    pub acc: u8,
    sp: u16,
    pc: u16,
    data: Vec<u8>,
    interrupt_enabled: bool,
    interrupt_pending: bool,
    interrupt_vector: u16,
    halted: bool,
}

impl View for CPU {
    type V = State;

    closed spec fn view(&self) -> State {
        State {
            a: self.acc,
            f: self.flag@,
            regs: self.registers@,
            sp: self.sp,
            pc: self.pc,
            mem: self.data@,
            interrupts_enabled: self.interrupt_enabled,
            interrupt_pending: self.interrupt_pending,
            interrupt_vector: self.interrupt_vector,
            halted: self.halted,
        }
    }
}

/// `x + n` on sixteen bits, wrapping.
fn wrapping_add16(x: u16, n: u16) -> (r: u16)
    ensures
        r == add16(x, n as int),
{
    ((x as u32 + n as u32) % 65536) as u16
}

/// `x - n` on sixteen bits, wrapping.
fn wrapping_sub16(x: u16, n: u16) -> (r: u16)
    ensures
        r == add16(x, -(n as int)),
{
    ((x as u32 + 65536 - n as u32) % 65536) as u16
}

impl CPU {
    /// A processor over the given memory: all registers zero, flags 0x02,
    /// SP equal to the memory length (on sixteen bits), PC zero,
    /// interrupts enabled and none pending.
    pub fn new(data: Vec<u8>) -> (r: Self)
        ensures
            r@ == initial_state(data@),
    {
        let sp = (data.len() % 65536) as u16;
        let r = CPU {
            flag: Flag::default(),
            registers: [0, 0, 0, 0, 0, 0],
            acc: 0,
            sp,
            pc: 0,
            data,
            interrupt_enabled: true,
            interrupt_pending: false,
            interrupt_vector: 0,
            halted: false,
        };
        assert(r.registers@ =~= seq![0u8, 0u8, 0u8, 0u8, 0u8, 0u8]);
        r
    }

    /// Every processor state holds six registers, and its flag byte has
    /// its fixed bits in place.
    pub proof fn lemma_view(&self)
        ensures
            self@.regs.len() == 6,
            fixed_bits_ok(self@.f),
    {
        self.flag.lemma_layout();
    }

    /// The accumulator.
    pub fn accumulator(&self) -> (r: u8)
        ensures
            r == self@.a,
    {
        self.acc
    }

    /// Sets the accumulator.
    pub fn set_accumulator(&mut self, v: u8)
        ensures
            final(self)@ == (State { a: v, ..old(self)@ }),
    {
        self.acc = v;
    }

    /// The flag word.
    pub fn flags(&self) -> (r: Flag)
        ensures
            r@ == self@.f,
    {
        self.flag
    }

    /// Replaces the flag word.
    pub fn set_flags(&mut self, flag: Flag)
        ensures
            final(self)@ == (State { f: flag@, ..old(self)@ }),
    {
        self.flag = flag;
    }

    /// The program counter.
    #[inline]
    pub fn pc(&self) -> (r: usize)
        ensures
            r == self@.pc,
    {
        self.pc as usize
    }

    /// The stack pointer.
    #[inline]
    pub fn sp(&self) -> (r: usize)
        ensures
            r == self@.sp,
    {
        self.sp as usize
    }

    /// Sets the program counter.
    pub fn set_pc(&mut self, pc: u16)
        ensures
            final(self)@ == (State { pc, ..old(self)@ }),
    {
        self.pc = pc;
    }

    /// Replaces the memory; the stack pointer is left as it is.
    #[inline]
    pub fn set_data(&mut self, data: Vec<u8>)
        ensures
            final(self)@ == (State { mem: data@, ..old(self)@ }),
    {
        self.data = data;
    }

    /// A copy of the memory.
    #[inline]
    pub fn data(&self) -> (r: Vec<u8>)
        ensures
            r@ == self@.mem,
    {
        self.data.clone()
    }

    /// Whether a HLT has stopped the processor.
    pub fn is_halted(&self) -> (r: bool)
        ensures
            r == self@.halted,
    {
        self.halted
    }

    /// The byte at `addr`, or 0 past the end of memory.
    pub fn get_value(&self, addr: usize) -> (r: u8)
        ensures
            r == (if addr < self@.mem.len() { self@.mem[addr as int] } else { 0 }),
    {
        if addr < self.data.len() {
            self.data[addr]
        } else {
            0
        }
    }

    /// Stores `val` at `addr`; a store past the end of memory is dropped.
    pub fn set_value(&mut self, addr: usize, val: u8)
        ensures
            final(self)@ == (State {
                mem: if addr < old(self)@.mem.len() { old(self)@.mem.update(addr as int, val) } else { old(self)@.mem },
                ..old(self)@
            }),
    {
        if addr < self.data.len() {
            self.data.set(addr, val);
        }
    }

    /// The address formed from a high and a low byte.
    #[inline]
    pub fn make_address(high: u8, low: u8) -> (r: usize)
        ensures
            r == compose(high, low),
    {
        (high as usize) * 256 + (low as usize)
    }

    /// The word formed from a high and a low byte.
    #[inline]
    pub fn compose_to_u16(high: u8, low: u8) -> (r: u16)
        ensures
            r == compose(high, low),
    {
        (high as u16) * 256 + (low as u16)
    }

    /// The high and low bytes of a word.
    #[inline]
    pub fn decompose_to_u8(val: u16) -> (r: (u8, u8))
        ensures
            r == decompose(val),
    {
        ((val / 256) as u8, (val % 256) as u8)
    }

    /// The byte at `addr`, or 0 past the end of memory.
    fn load(&self, addr: u16) -> (r: u8)
        ensures
            r == read_mem(self@.mem, addr),
    {
        if (addr as usize) < self.data.len() {
            self.data[addr as usize]
        } else {
            0
        }
    }

    /// Stores `v` at `addr`; a store past the end of memory is dropped.
    fn store(&mut self, addr: u16, v: u8)
        ensures
            final(self)@ == (State { mem: write_mem(old(self)@.mem, addr, v), ..old(self)@ }),
    {
        if (addr as usize) < self.data.len() {
            self.data.set(addr as usize, v);
        }
        assert(self@.mem =~= write_mem(old(self)@.mem, addr, v));
    }
}

impl CPU {
    /// The value of a register operand (M reads memory at HL).
    pub fn register_or_memory_data(&self, reg: Register) -> (r: u8)
        ensures
            r == self@.operand(reg),
    {
        match reg {
            Register::B => self.registers[0],
            Register::C => self.registers[1],
            Register::D => self.registers[2],
            Register::E => self.registers[3],
            Register::H => self.registers[4],
            Register::L => self.registers[5],
            Register::Mem => self.load(self.memory_address()),
            Register::Acc => self.acc,
        }
    }

    /// Writes a register operand (M writes memory at HL).
    pub fn set_register_or_memory_data(&mut self, reg: Register, data: u8)
        ensures
            final(self)@ == old(self)@.with_operand(reg, data),
    {
        match reg {
            Register::B => self.registers[0] = data,
            Register::C => self.registers[1] = data,
            Register::D => self.registers[2] = data,
            Register::E => self.registers[3] = data,
            Register::H => self.registers[4] = data,
            Register::L => self.registers[5] = data,
            Register::Mem => {
                let addr = self.memory_address();
                self.store(addr, data);
            },
            Register::Acc => self.acc = data,
        }
    }

    /// The address held in H and L.
    fn memory_address(&self) -> (r: u16)
        ensures
            r == self@.hl(),
    {
        Self::compose_to_u16(self.registers[4], self.registers[5])
    }

    /// Loads H and L with a word.
    pub fn set_memory_address(&mut self, addr: u16)
        ensures
            final(self)@ == old(self)@.with_pair(Pair::HL, addr),
    {
        let (h, l) = Self::decompose_to_u8(addr);
        self.registers[4] = h;
        self.registers[5] = l;
    }

    /// The value of a register pair (the fourth is SP).
    fn pair_value(&self, p: Pair) -> (r: u16)
        ensures
            r == self@.pair(p),
    {
        match p {
            Pair::BC => Self::compose_to_u16(self.registers[0], self.registers[1]),
            Pair::DE => Self::compose_to_u16(self.registers[2], self.registers[3]),
            Pair::HL => Self::compose_to_u16(self.registers[4], self.registers[5]),
            Pair::SP => self.sp,
        }
    }

    /// Writes a register pair (the fourth is SP).
    fn set_pair_value(&mut self, p: Pair, v: u16)
        ensures
            final(self)@ == old(self)@.with_pair(p, v),
    {
        let (h, l) = Self::decompose_to_u8(v);
        match p {
            Pair::BC => {
                self.registers[0] = h;
                self.registers[1] = l;
            },
            Pair::DE => {
                self.registers[2] = h;
                self.registers[3] = l;
            },
            Pair::HL => {
                self.registers[4] = h;
                self.registers[5] = l;
            },
            Pair::SP => self.sp = v,
        }
    }

    /// Advances PC by `n`, wrapping.
    fn advance(&mut self, n: u16)
        ensures
            final(self)@ == old(self)@.advance(n as int),
    {
        self.pc = wrapping_add16(self.pc, n);
    }

    /// The byte after the opcode.
    fn imm8(&self) -> (r: u8)
        ensures
            r == self@.imm8(),
    {
        self.load(wrapping_add16(self.pc, 1))
    }

    /// The little-endian word after the opcode.
    fn imm16(&self) -> (r: u16)
        ensures
            r == self@.imm16(),
    {
        let low = self.load(wrapping_add16(self.pc, 1));
        let high = self.load(wrapping_add16(self.pc, 2));
        Self::compose_to_u16(high, low)
    }

    /// Pushes one byte: SP goes down by one and the byte lands there.
    fn stack_push_u8(&mut self, val: u8)
        ensures
            final(self)@ == (State {
                sp: add16(old(self)@.sp, -1),
                mem: write_mem(old(self)@.mem, add16(old(self)@.sp, -1), val),
                ..old(self)@
            }),
    {
        self.sp = wrapping_sub16(self.sp, 1);
        let sp = self.sp;
        self.store(sp, val);
    }

    /// Pops one byte: the byte at SP, then SP goes up by one.
    fn stack_pop_u8(&mut self) -> (r: u8)
        ensures
            r == read_mem(old(self)@.mem, old(self)@.sp),
            final(self)@ == (State { sp: add16(old(self)@.sp, 1), ..old(self)@ }),
    {
        let r = self.load(self.sp);
        self.sp = wrapping_add16(self.sp, 1);
        r
    }

    /// Pushes a word: the high byte goes to SP - 1, the low byte to SP - 2,
    /// and SP goes down by two.
    pub fn stack_push(&mut self, val: u16)
        ensures
            final(self)@ == old(self)@.push(val),
    {
        let (high, low) = Self::decompose_to_u8(val);
        self.stack_push_u8(high);
        self.stack_push_u8(low);
    }

    /// Pops a word: the low byte from SP, the high byte from SP + 1, and SP
    /// goes up by two.
    pub fn stack_pop(&mut self) -> (r: u16)
        ensures
            r == old(self)@.top(),
            final(self)@ == old(self)@.pop(),
    {
        let low = self.stack_pop_u8();
        let high = self.stack_pop_u8();
        Self::compose_to_u16(high, low)
    }

    /// Sets Z from a result byte.
    fn update_zero_flag(&mut self, val: u8)
        ensures
            final(self)@ == (State { f: with_zero(old(self)@.f, val == 0), ..old(self)@ }),
    {
        self.flag.set_zero_flag(val == 0);
    }

    /// Sets S from a result byte.
    fn update_sign_flag(&mut self, val: u8)
        ensures
            final(self)@ == (State { f: with_sign(old(self)@.f, val >= 128), ..old(self)@ }),
    {
        self.flag.set_sign_flag(val > 0b0111_1111);
    }

    /// Sets P from a result byte.
    fn update_parity_flag(&mut self, val: u8)
        ensures
            final(self)@ == (State { f: with_parity(old(self)@.f, even_parity(val)), ..old(self)@ }),
    {
        let p = has_even_parity(val);
        self.flag.set_parity_flag(p);
    }

    /// Sets the carry to the carry out of `val1 + val2 + carry`.
    fn update_carry_flag_with_carry(&mut self, val1: u8, val2: u8, carry: u8)
        requires
            carry <= 1,
        ensures
            final(self)@ == (State { f: with_carry(old(self)@.f, val1 + val2 + carry > 0xFF), ..old(self)@ }),
    {
        self.flag.set_carry_flag(val1 as u16 + val2 as u16 + carry as u16 > 0xFF);
    }

    /// Sets the auxiliary carry to the carry out of the low nibbles of
    /// `val1 + val2`.
    fn update_aux_flag(&mut self, val1: u8, val2: u8)
        ensures
            final(self)@ == (State { f: with_aux(old(self)@.f, val1 % 16 + val2 % 16 > 15), ..old(self)@ }),
    {
        self.flag.set_auxiliary_carry_flag(val1 % 16 + val2 % 16 > 15);
    }

    /// Sets the auxiliary carry to the carry out of the low nibbles of
    /// `val1 + val2 + carry`.
    fn update_aux_flag_with_carry(&mut self, val1: u8, val2: u8, carry: u8)
        requires
            carry <= 1,
        ensures
            final(self)@ == (State { f: with_aux(old(self)@.f, val1 % 16 + val2 % 16 + carry > 15), ..old(self)@ }),
    {
        self.flag.set_auxiliary_carry_flag(val1 % 16 + val2 % 16 + carry > 15);
    }
}

impl CPU {
    /// LXI: loads a pair (or SP) with the little-endian word after the
    /// opcode.
    fn op_lxi(&mut self, p: Pair)
        ensures
            final(self)@ == lxi(old(self)@, p),
    {
        let v = self.imm16();
        self.set_pair_value(p, v);
        self.advance(3);
    }

    /// STAX: stores A at the address in a pair.
    fn op_stax(&mut self, p: Pair)
        ensures
            final(self)@ == stax(old(self)@, p),
    {
        let addr = self.pair_value(p);
        let a = self.acc;
        self.store(addr, a);
        self.advance(1);
    }

    /// LDAX: loads A from the address in a pair.
    fn op_ldax(&mut self, p: Pair)
        ensures
            final(self)@ == ldax(old(self)@, p),
    {
        let addr = self.pair_value(p);
        self.acc = self.load(addr);
        self.advance(1);
    }

    /// SHLD: stores L at the direct address and H after it.
    fn op_shld(&mut self)
        ensures
            final(self)@ == shld(old(self)@),
    {
        let addr = self.imm16();
        let l = self.registers[5];
        let h = self.registers[4];
        self.store(addr, l);
        self.store(wrapping_add16(addr, 1), h);
        self.advance(3);
    }

    /// LHLD: loads L from the direct address and H from the byte after it.
    fn op_lhld(&mut self)
        ensures
            final(self)@ == lhld(old(self)@),
    {
        let addr = self.imm16();
        self.registers[5] = self.load(addr);
        self.registers[4] = self.load(wrapping_add16(addr, 1));
        self.advance(3);
    }

    /// STA: stores A at the direct address.
    fn op_sta(&mut self)
        ensures
            final(self)@ == sta(old(self)@),
    {
        let addr = self.imm16();
        let a = self.acc;
        self.store(addr, a);
        self.advance(3);
    }

    /// LDA: loads A from the direct address.
    fn op_lda(&mut self)
        ensures
            final(self)@ == lda(old(self)@),
    {
        let addr = self.imm16();
        self.acc = self.load(addr);
        self.advance(3);
    }

    /// INX: increments a pair (or SP), wrapping; no flags change.
    fn op_inx(&mut self, p: Pair)
        ensures
            final(self)@ == inx(old(self)@, p),
    {
        let v = self.pair_value(p);
        self.set_pair_value(p, wrapping_add16(v, 1));
        self.advance(1);
    }

    /// DCX: decrements a pair (or SP), wrapping; no flags change.
    fn op_dcx(&mut self, p: Pair)
        ensures
            final(self)@ == dcx(old(self)@, p),
    {
        let v = self.pair_value(p);
        self.set_pair_value(p, wrapping_sub16(v, 1));
        self.advance(1);
    }

    /// DAD: adds a pair (or SP) to HL; C is the carry out of bit 15.
    fn op_dad(&mut self, p: Pair)
        ensures
            final(self)@ == dad(old(self)@, p),
    {
        let sum = self.memory_address() as u32 + self.pair_value(p) as u32;
        self.set_pair_value(Pair::HL, (sum % 65536) as u16);
        self.flag.set_carry_flag(sum > 0xFFFF);
        self.advance(1);
    }

    /// MVI: loads an operand with the byte after the opcode.
    fn op_mvi(&mut self, r: Register)
        ensures
            final(self)@ == mvi(old(self)@, r),
    {
        let v = self.imm8();
        self.set_register_or_memory_data(r, v);
        self.advance(2);
    }

    /// MOV: copies one operand to another.
    fn op_mov(&mut self, dst: Register, src: Register)
        ensures
            final(self)@ == mov(old(self)@, dst, src),
    {
        let v = self.register_or_memory_data(src);
        self.set_register_or_memory_data(dst, v);
        self.advance(1);
    }

    /// XCHG: swaps DE and HL.
    fn op_xchg(&mut self)
        ensures
            final(self)@ == xchg(old(self)@),
    {
        let d = self.registers[2];
        let e = self.registers[3];
        self.registers[2] = self.registers[4];
        self.registers[3] = self.registers[5];
        self.registers[4] = d;
        self.registers[5] = e;
        self.advance(1);
    }

    /// XTHL: swaps L with the byte at SP and H with the byte at SP + 1.
    fn op_xthl(&mut self)
        ensures
            final(self)@ == xthl(old(self)@),
    {
        let sp = self.sp;
        let sp1 = wrapping_add16(sp, 1);
        let l = self.load(sp);
        let h = self.load(sp1);
        let old_h = self.registers[4];
        let old_l = self.registers[5];
        self.store(sp1, old_h);
        self.store(sp, old_l);
        self.registers[5] = l;
        self.registers[4] = h;
        self.advance(1);
    }
}

impl CPU {
    /// INR: increments an operand; S, Z, P from the result, AC set when the
    /// low nibble was 0xF, C kept.
    fn op_inr(&mut self, r: Register)
        ensures
            final(self)@ == inr(old(self)@, r),
    {
        let v = self.register_or_memory_data(r);
        let n = ((v as u16 + 1) % 256) as u8;
        self.update_flags_keeping_carry(n, v % 16 == 15);
        self.set_register_or_memory_data(r, n);
        self.advance(1);
    }

    /// DCR: decrements an operand; S, Z, P from the result, AC set when the
    /// low nibble does not borrow, C kept.
    fn op_dcr(&mut self, r: Register)
        ensures
            final(self)@ == dcr(old(self)@, r),
    {
        let v = self.register_or_memory_data(r);
        let n = ((v as u16 + 255) % 256) as u8;
        self.update_flags_keeping_carry(n, v % 16 != 0);
        self.set_register_or_memory_data(r, n);
        self.advance(1);
    }

    /// Sets S, Z, P from a result byte and AC as given; C is kept.
    fn update_flags_keeping_carry(&mut self, r: u8, ac: bool)
        ensures
            final(self)@ == (State { f: result_flags(r, ac, carry_of(old(self)@.f)), ..old(self)@ }),
    {
        self.flag.set_auxiliary_carry_flag(ac);
        self.update_szp(r);
    }

    /// RLC: rotates A left; bit 7 goes to bit 0 and to C.
    fn op_rlc(&mut self)
        ensures
            final(self)@ == rlc(old(self)@),
    {
        let a = self.acc;
        self.flag.set_carry_flag(a >= 128);
        self.acc = (a % 128) * 2 + a / 128;
        self.advance(1);
    }

    /// RRC: rotates A right; bit 0 goes to bit 7 and to C.
    fn op_rrc(&mut self)
        ensures
            final(self)@ == rrc(old(self)@),
    {
        let a = self.acc;
        self.flag.set_carry_flag(a % 2 == 1);
        self.acc = a / 2 + (a % 2) * 128;
        self.advance(1);
    }

    /// RAL: rotates A left through the carry.
    fn op_ral(&mut self)
        ensures
            final(self)@ == ral(old(self)@),
    {
        let a = self.acc;
        let c: u8 = if self.flag.carry_flag() { 1 } else { 0 };
        self.flag.set_carry_flag(a >= 128);
        self.acc = (a % 128) * 2 + c;
        self.advance(1);
    }

    /// RAR: rotates A right through the carry.
    fn op_rar(&mut self)
        ensures
            final(self)@ == rar(old(self)@),
    {
        let a = self.acc;
        let c: u8 = if self.flag.carry_flag() { 1 } else { 0 };
        self.flag.set_carry_flag(a % 2 == 1);
        self.acc = a / 2 + c * 128;
        self.advance(1);
    }

    /// DAA: decimal adjust of the accumulator.
    fn op_daa(&mut self)
        ensures
            final(self)@ == daa(old(self)@).advance(1),
    {
        let a = self.acc;
        let low_fix = a % 16 > 9 || self.flag.auxiliary_flag();
        let a1: u8 = if low_fix { ((a as u16 + 6) % 256) as u8 } else { a };
        let ac = low_fix && a % 16 + 6 > 15;
        let high_fix = a1 / 16 > 9 || self.flag.carry_flag();
        let r: u8 = if high_fix { ((a1 as u16 + 0x60) % 256) as u8 } else { a1 };
        self.flag.set_auxiliary_carry_flag(ac);
        self.flag.set_carry_flag(high_fix);
        self.acc = r;
        self.update_zero_flag(r);
        self.update_parity_flag(r);
        self.update_sign_flag(r);
        self.advance(1);
    }

    /// The single-byte instructions that touch neither memory nor the
    /// register file: CMA, STC, CMC, HLT, EI, DI, SPHL, PCHL, NOP, and the
    /// two-byte IN and OUT, whose port byte is skipped.
    fn op_control(&mut self, ins: Instruction)
        requires
            ins is Cma || ins is Stc || ins is Cmc || ins is Hlt || ins is Ei || ins is Di
                || ins is Sphl || ins is Pchl || ins is Nop || ins is In || ins is Out,
        ensures
            final(self)@ == exec_instruction(old(self)@, ins),
    {
        match ins {
            Instruction::Cma => {
                self.acc = self.acc ^ 0xFF;
                self.advance(1);
            },
            Instruction::Stc => {
                self.flag.set_carry_flag(true);
                self.advance(1);
            },
            Instruction::Cmc => {
                let c = self.flag.carry_flag();
                self.flag.set_carry_flag(!c);
                self.advance(1);
            },
            Instruction::Hlt => {
                self.halted = true;
                self.advance(1);
            },
            Instruction::Ei => {
                self.interrupt_enabled = true;
                self.advance(1);
            },
            Instruction::Di => {
                self.interrupt_enabled = false;
                self.advance(1);
            },
            Instruction::Sphl => {
                self.sp = self.memory_address();
                self.advance(1);
            },
            Instruction::Pchl => {
                self.pc = self.memory_address();
            },
            Instruction::In | Instruction::Out => {
                self.advance(2);
            },
            _ => {
                self.advance(1);
            },
        }
    }
}

impl CPU {
    /// Sets S, Z and P from a result byte.
    fn update_szp(&mut self, r: u8)
        ensures
            final(self)@ == (State {
                f: pack_flags(r >= 128, r == 0, aux_of(old(self)@.f), even_parity(r), carry_of(old(self)@.f)),
                ..old(self)@
            }),
    {
        self.update_zero_flag(r);
        self.update_sign_flag(r);
        self.update_parity_flag(r);
    }

    /// ADD and ADC: A plus operand (plus carry for ADC).
    fn alu_add(&mut self, op: AluOp, data: u8)
        requires
            op is Add || op is Adc,
        ensures
            final(self)@ == alu_apply(old(self)@, op, data, alu_flags(op, old(self)@.a, data, old(self)@.f)),
    {
        let a = self.acc;
        let with_carry_in = match op {
            AluOp::Adc => self.flag.carry_flag(),
            _ => false,
        };
        let carry: u8 = if with_carry_in { 1 } else { 0 };
        self.update_aux_flag_with_carry(a, data, carry);
        self.update_carry_flag_with_carry(a, data, carry);
        let r = ((a as u16 + data as u16 + carry as u16) % 256) as u8;
        self.acc = r;
        self.update_szp(r);
    }

    /// SUB and CMP: A minus operand; CMP keeps A.
    fn alu_sub(&mut self, op: AluOp, data: u8)
        requires
            op is Sub || op is Cmp,
        ensures
            final(self)@ == alu_apply(old(self)@, op, data, alu_flags(op, old(self)@.a, data, old(self)@.f)),
    {
        let a = self.acc;
        self.flag.set_auxiliary_carry_flag(a % 16 >= data % 16);
        self.flag.set_carry_flag(a < data);
        let r = sub8(a, data);
        match op {
            AluOp::Sub => self.acc = r,
            _ => {},
        }
        self.update_szp(r);
    }

    /// SBB: A minus operand minus carry.
    fn alu_sbb(&mut self, data: u8)
        ensures
            final(self)@ == alu_apply(old(self)@, AluOp::Sbb, data, alu_flags(AluOp::Sbb, old(self)@.a, data, old(self)@.f)),
    {
        let a = self.acc;
        let carry: u8 = if self.flag.carry_flag() { 1 } else { 0 };
        self.flag.set_auxiliary_carry_flag(a % 16 >= data % 16 + carry);
        self.flag.set_carry_flag((a as u16) < data as u16 + carry as u16);
        let r = sub8(sub8(a, data), carry);
        self.acc = r;
        self.update_szp(r);
    }

    /// ANA, XRA and ORA: bitwise and, exclusive or, or; C is cleared, AC
    /// is bit 3 of `A | operand` for ANA and cleared otherwise.
    fn alu_logic(&mut self, op: AluOp, data: u8)
        requires
            op is Ana || op is Xra || op is Ora,
        ensures
            final(self)@ == alu_apply(old(self)@, op, data, alu_flags(op, old(self)@.a, data, old(self)@.f)),
    {
        let a = self.acc;
        let r = match op {
            AluOp::Ana => a & data,
            AluOp::Xra => a ^ data,
            _ => a | data,
        };
        let ac = match op {
            AluOp::Ana => (a | data) & 0x08 == 0x08,
            _ => false,
        };
        self.acc = r;
        self.flag.set_auxiliary_carry_flag(ac);
        self.flag.set_carry_flag(false);
        self.update_szp(r);
    }

    /// An accumulator operation on operand `data`.
    fn alu(&mut self, op: AluOp, data: u8)
        ensures
            final(self)@ == alu_apply(old(self)@, op, data, alu_flags(op, old(self)@.a, data, old(self)@.f)),
    {
        match op {
            AluOp::Add | AluOp::Adc => self.alu_add(op, data),
            AluOp::Sub | AluOp::Cmp => self.alu_sub(op, data),
            AluOp::Sbb => self.alu_sbb(data),
            _ => self.alu_logic(op, data),
        }
    }

    /// Whether a branch condition holds under the current flags.
    fn condition(&self, c: Condition) -> (r: bool)
        ensures
            r == condition_holds(self@.f, c),
    {
        match c {
            Condition::NotZero => !self.flag.zero_flag(),
            Condition::Zero => self.flag.zero_flag(),
            Condition::NoCarry => !self.flag.carry_flag(),
            Condition::Carry => self.flag.carry_flag(),
            Condition::ParityOdd => !self.flag.parity_flag(),
            Condition::ParityEven => self.flag.parity_flag(),
            Condition::Plus => !self.flag.sign_flag(),
            Condition::Minus => self.flag.sign_flag(),
        }
    }

    /// Jumps to the operand word when the condition holds, else skips the
    /// three-byte instruction.
    fn op_jump(&mut self, taken: bool)
        ensures
            final(self)@ == (if taken { State { pc: old(self)@.imm16(), ..old(self)@ } } else { old(self)@.advance(3) }),
    {
        if taken {
            self.pc = self.imm16();
        } else {
            self.advance(3);
        }
    }

    /// Calls the operand word when the condition holds, else skips the
    /// three-byte instruction.
    fn op_call(&mut self, taken: bool)
        ensures
            final(self)@ == (if taken { call(old(self)@, old(self)@.imm16()) } else { old(self)@.advance(3) }),
    {
        let target = self.imm16();
        self.advance(3);
        if taken {
            let pc = self.pc;
            self.stack_push(pc);
            self.pc = target;
        }
    }

    /// Returns when the condition holds, else skips the one-byte
    /// instruction.
    fn op_return(&mut self, taken: bool)
        ensures
            final(self)@ == (if taken { ret(old(self)@) } else { old(self)@.advance(1) }),
    {
        if taken {
            self.pc = self.stack_pop();
        } else {
            self.advance(1);
        }
    }

    /// RST: pushes the address of the next instruction and jumps to 8 * n.
    fn op_rst(&mut self, n: u8)
        ensures
            final(self)@ == rst(old(self)@, n),
    {
        self.advance(1);
        let pc = self.pc;
        self.stack_push(pc);
        self.pc = n as u16 * 8;
    }

    /// PUSH: pushes a pair, or A and the flags (F at the lower address).
    fn op_push(&mut self, p: Pair)
        ensures
            final(self)@ == push_pair(old(self)@, p),
    {
        let v = match p {
            Pair::SP => Self::compose_to_u16(self.acc, self.flag.value()),
            _ => self.pair_value(p),
        };
        self.stack_push(v);
        self.advance(1);
    }

    /// POP: pops a pair, or the flags and then A.
    fn op_pop(&mut self, p: Pair)
        ensures
            final(self)@ == pop_pair(old(self)@, p),
    {
        let v = self.stack_pop();
        match p {
            Pair::SP => {
                let (h, l) = Self::decompose_to_u8(v);
                self.flag.set_value(l);
                self.acc = h;
            },
            _ => self.set_pair_value(p, v),
        }
        self.advance(1);
    }
}

impl CPU {
    /// Executes one decoded instruction.
    pub fn execute_instruction(&mut self, ins: Instruction)
        ensures
            final(self)@ == exec_instruction(old(self)@, ins),
    {
        match ins {
            Instruction::Lxi(p) => self.op_lxi(p),
            Instruction::Stax(p) => self.op_stax(p),
            Instruction::Ldax(p) => self.op_ldax(p),
            Instruction::Shld => self.op_shld(),
            Instruction::Lhld => self.op_lhld(),
            Instruction::Sta => self.op_sta(),
            Instruction::Lda => self.op_lda(),
            Instruction::Inx(p) => self.op_inx(p),
            Instruction::Dcx(p) => self.op_dcx(p),
            Instruction::Dad(p) => self.op_dad(p),
            Instruction::Inr(r) => self.op_inr(r),
            Instruction::Dcr(r) => self.op_dcr(r),
            Instruction::Mvi(r) => self.op_mvi(r),
            Instruction::Rlc => self.op_rlc(),
            Instruction::Rrc => self.op_rrc(),
            Instruction::Ral => self.op_ral(),
            Instruction::Rar => self.op_rar(),
            Instruction::Daa => self.op_daa(),
            Instruction::Mov(d, r) => self.op_mov(d, r),
            Instruction::Alu(op, r) => {
                let x = self.register_or_memory_data(r);
                self.alu(op, x);
                self.advance(1);
            },
            Instruction::AluImm(op) => {
                let x = self.imm8();
                self.alu(op, x);
                self.advance(2);
            },
            Instruction::Jmp => self.op_jump(true),
            Instruction::Jcond(c) => {
                let taken = self.condition(c);
                self.op_jump(taken);
            },
            Instruction::Call => self.op_call(true),
            Instruction::Ccond(c) => {
                let taken = self.condition(c);
                self.op_call(taken);
            },
            Instruction::Ret => self.op_return(true),
            Instruction::Rcond(c) => {
                let taken = self.condition(c);
                self.op_return(taken);
            },
            Instruction::Rst(n) => self.op_rst(n),
            Instruction::Push(p) => self.op_push(p),
            Instruction::Pop(p) => self.op_pop(p),
            Instruction::Xchg => self.op_xchg(),
            Instruction::Xthl => self.op_xthl(),
            _ => self.op_control(ins),
        }
    }

    /// Executes the instruction whose opcode byte is `opcode`, with its
    /// operands read from memory after PC.
    pub fn execute(&mut self, opcode: u8)
        ensures
            final(self)@ == execute_spec(old(self)@, opcode),
            fixed_bits_ok(final(self)@.f),
    {
        let ins = Instruction::decode(opcode);
        self.execute_instruction(ins);
        proof {
            self.flag.lemma_layout();
        }
    }

    /// If interrupts are enabled: disables them and pushes PC (an
    /// acknowledge that keeps PC where it is).
    pub fn interrupt(&mut self)
        ensures
            final(self)@ == (if old(self)@.interrupts_enabled {
                State { interrupts_enabled: false, ..old(self)@.push(old(self)@.pc) }
            } else {
                old(self)@
            }),
    {
        if self.interrupt_enabled {
            self.interrupt_enabled = false;
            let pc = self.pc;
            self.stack_push(pc);
        }
    }

    /// One step: unless halted, executes the instruction at PC; then
    /// acknowledges a pending interrupt.
    pub fn run_once(&mut self)
        ensures
            final(self)@ == step_spec(old(self)@),
            fixed_bits_ok(final(self)@.f),
    {
        if !self.halted {
            let opcode = self.load(self.pc);
            self.execute(opcode);
        }
        self.handle_interrupt();
        proof {
            self.flag.lemma_layout();
        }
    }

    /// Acknowledges a pending interrupt when interrupts are enabled: pushes
    /// PC, disables interrupts, clears the request and the halt, and jumps
    /// to the requested vector.
    pub fn handle_interrupt(&mut self)
        ensures
            final(self)@ == acknowledge(old(self)@),
    {
        if self.interrupt_enabled && self.interrupt_pending {
            let pc = self.pc;
            self.stack_push(pc);
            self.interrupt_enabled = false;
            self.interrupt_pending = false;
            self.halted = false;
            self.pc = self.interrupt_vector;
        }
    }

    /// Requests an interrupt to `addr`; it is taken after the next
    /// instruction retires, once interrupts are enabled.
    #[inline]
    pub fn send_interrupt(&mut self, addr: u16)
        ensures
            final(self)@ == (State { interrupt_vector: addr, interrupt_pending: true, ..old(self)@ }),
    {
        self.interrupt_vector = addr;
        self.interrupt_pending = true;
    }
}

/// `a - b` on eight bits, wrapping.
fn sub8(a: u8, b: u8) -> (r: u8)
    ensures
        r == ((a - b) % 256) as u8,
{
    if a >= b {
        a - b
    } else {
        (a as u16 + 256 - b as u16) as u8
    }
}

/// Whether a byte has an even number of one bits.
fn has_even_parity(v: u8) -> (r: bool)
    ensures
        r == even_parity(v),
{
    let mut x: u8 = v;
    let mut even: bool = true;
    while x > 0
        invariant
            (popcount(x as nat) + (if even { 0nat } else { 1nat })) % 2 == popcount(v as nat) % 2,
        decreases x,
    {
        if x % 2 == 1 {
            even = !even;
        }
        x = x / 2;
    }
    even
}

/// Composing two bytes and splitting the word gives the bytes back.
pub proof fn lemma_compose_decompose(h: u8, l: u8)
    ensures
        decompose(compose(h, l)) == (h, l),
{
}

} // verus!
