//! The instruction set as functions on the abstract state: what one
//! instruction does to a [`State`], and what one step of the processor does.

use crate::cpu::{
    State, add16, compose, decompose, even_parity, read_mem, result_flags, with_carry, write_mem,
};
use crate::opcode::{AluOp, Condition, Instruction, Pair, decode};
use crate::register::{
    Register, aux_of, carry_of, fixed_bits_ok, lemma_normalize_flags, normalize_flags, parity_of,
    sign_of, zero_of,
};
use vstd::prelude::*;

verus! {

broadcast use crate::register::lemma_pack_flags, crate::register::lemma_normalize_flags;

/// Whether a branch condition holds under the flag byte `f`.
pub open spec fn condition_holds(f: u8, c: Condition) -> bool {
    match c {
        Condition::NotZero => !zero_of(f),
        Condition::Zero => zero_of(f),
        Condition::NoCarry => !carry_of(f),
        Condition::Carry => carry_of(f),
        Condition::ParityOdd => !parity_of(f),
        Condition::ParityEven => parity_of(f),
        Condition::Plus => !sign_of(f),
        Condition::Minus => sign_of(f),
    }
}

/// The carry flag of `f` as 0 or 1.
pub open spec fn carry_bit(f: u8) -> int {
    if carry_of(f) {
        1
    } else {
        0
    }
}

/// The result byte of an accumulator operation (for CMP, the difference
/// that sets the flags; A itself is kept). ADC and SBB take the incoming
/// carry into the sum or difference.
pub open spec fn alu_result(op: AluOp, a: u8, x: u8, f: u8) -> u8 {
    let c = carry_bit(f);
    match op {
        AluOp::Add => ((a + x) % 256) as u8,
        AluOp::Adc => ((a + x + c) % 256) as u8,
        AluOp::Sub => ((a - x) % 256) as u8,
        AluOp::Sbb => ((a - x - c) % 256) as u8,
        AluOp::Ana => a & x,
        AluOp::Xra => a ^ x,
        AluOp::Ora => a | x,
        AluOp::Cmp => ((a - x) % 256) as u8,
    }
}

/// The flag byte after an accumulator operation, in register and
/// immediate form alike.
///
/// Add: C is the carry out of bit 7, AC the carry out of bit 3. Subtract
/// (SUB, SBB, CMP): C is the borrow, AC is set when the low nibble does not
/// borrow; SBB subtracts the incoming carry too. ANA sets AC to bit 3 of
/// `a | x`; XRA and ORA clear it. The logical operations clear C.
pub open spec fn alu_flags(op: AluOp, a: u8, x: u8, f: u8) -> u8 {
    let c = carry_bit(f);
    let r = alu_result(op, a, x, f);
    match op {
        AluOp::Add => result_flags(r, a % 16 + x % 16 > 15, a + x > 255),
        AluOp::Adc => result_flags(r, a % 16 + x % 16 + c > 15, a + x + c > 255),
        AluOp::Sub => result_flags(r, a % 16 >= x % 16, a < x),
        AluOp::Sbb => result_flags(r, a % 16 >= x % 16 + c, a < x + c),
        AluOp::Ana => result_flags(r, (a | x) & 0x08 == 0x08, false),
        AluOp::Xra => result_flags(r, false, false),
        AluOp::Ora => result_flags(r, false, false),
        AluOp::Cmp => result_flags(r, a % 16 >= x % 16, a < x),
    }
}

/// The state after an accumulator operation on operand `x`, flags given.
pub open spec fn alu_apply(s: State, op: AluOp, x: u8, f: u8) -> State {
    match op {
        AluOp::Cmp => State { f, ..s },
        _ => State { a: alu_result(op, s.a, x, s.f), f, ..s },
    }
}

/// Decimal adjust of the accumulator: when the low nibble exceeds 9 or AC
/// is set, 6 is added to A (on eight bits) and AC becomes the carry out of
/// the low nibble; then, when the high nibble of that A exceeds 9 or C is
/// set, 0x60 is added and C becomes set (it is never cleared).
pub open spec fn daa(s: State) -> State {
    let a = s.a;
    let low_fix = a % 16 > 9 || aux_of(s.f);
    let a1: u8 = if low_fix { ((a + 6) % 256) as u8 } else { a };
    let ac = low_fix && a % 16 + 6 > 15;
    let high_fix = a1 / 16 > 9 || carry_of(s.f);
    let r: u8 = if high_fix { ((a1 + 0x60) % 256) as u8 } else { a1 };
    State { a: r, f: result_flags(r, ac, high_fix), ..s }
}

/// The state after a call to `target`: the address of the next
/// instruction (PC + 3) is pushed.
pub open spec fn call(s: State, target: u16) -> State {
    let next = s.advance(3);
    State { pc: target, ..next.push(next.pc) }
}

/// The state after a return: PC is popped.
pub open spec fn ret(s: State) -> State {
    State { pc: s.top(), ..s.pop() }
}

/// POP: the word on top of the stack goes to a pair, or to the flags (low
/// byte, fixed bits forced) and A (high byte).
pub open spec fn pop_pair(s: State, p: Pair) -> State {
    let v = s.top();
    let (h, l) = decompose(v);
    match p {
        Pair::SP => State { a: h, f: normalize_flags(l), ..s.pop() }.advance(1),
        _ => s.pop().with_pair(p, v).advance(1),
    }
}

/// LXI: a pair (or SP) takes the little-endian word after the opcode.
pub open spec fn lxi(s: State, p: Pair) -> State {
    s.with_pair(p, s.imm16()).advance(3)
}

/// STAX: A is stored at the address in a pair.
pub open spec fn stax(s: State, p: Pair) -> State {
    State { mem: write_mem(s.mem, s.pair(p), s.a), ..s }.advance(1)
}

/// LDAX: A is loaded from the address in a pair.
pub open spec fn ldax(s: State, p: Pair) -> State {
    State { a: read_mem(s.mem, s.pair(p)), ..s }.advance(1)
}

/// SHLD: L is stored at the direct address and H at the byte after it.
pub open spec fn shld(s: State) -> State {
    let addr = s.imm16();
    State {
        mem: write_mem(write_mem(s.mem, addr, s.regs[5]), add16(addr, 1), s.regs[4]),
        ..s
    }.advance(3)
}

/// LHLD: L is loaded from the direct address and H from the byte after it.
pub open spec fn lhld(s: State) -> State {
    let addr = s.imm16();
    let regs = s.regs.update(5, read_mem(s.mem, addr)).update(4, read_mem(s.mem, add16(addr, 1)));
    State { regs, ..s }.advance(3)
}

/// STA: A is stored at the direct address.
pub open spec fn sta(s: State) -> State {
    State { mem: write_mem(s.mem, s.imm16(), s.a), ..s }.advance(3)
}

/// LDA: A is loaded from the direct address.
pub open spec fn lda(s: State) -> State {
    State { a: read_mem(s.mem, s.imm16()), ..s }.advance(3)
}

/// INX: a pair (or SP) goes up by one, wrapping; no flag changes.
pub open spec fn inx(s: State, p: Pair) -> State {
    s.with_pair(p, add16(s.pair(p), 1)).advance(1)
}

/// DCX: a pair (or SP) goes down by one, wrapping; no flag changes.
pub open spec fn dcx(s: State, p: Pair) -> State {
    s.with_pair(p, add16(s.pair(p), -1)).advance(1)
}

/// DAD: a pair (or SP) is added to HL; C is the carry out of bit 15.
pub open spec fn dad(s: State, p: Pair) -> State {
    let sum = s.hl() + s.pair(p);
    let hl = (sum % 65536) as u16;
    State { f: with_carry(s.f, sum > 0xFFFF), ..s.with_pair(Pair::HL, hl) }.advance(1)
}

/// INR: an operand goes up by one; S, Z, P from the result, AC set when
/// the low nibble was 0xF, C kept.
pub open spec fn inr(s: State, r: Register) -> State {
    let v = s.operand(r);
    let n = ((v + 1) % 256) as u8;
    State { f: result_flags(n, v % 16 == 15, carry_of(s.f)), ..s }.with_operand(r, n).advance(1)
}

/// DCR: an operand goes down by one; S, Z, P from the result, AC set when
/// the low nibble does not borrow (it was not 0), C kept.
pub open spec fn dcr(s: State, r: Register) -> State {
    let v = s.operand(r);
    let n = ((v - 1) % 256) as u8;
    State { f: result_flags(n, v % 16 != 0, carry_of(s.f)), ..s }.with_operand(r, n).advance(1)
}

/// MVI: an operand takes the byte after the opcode.
pub open spec fn mvi(s: State, r: Register) -> State {
    s.with_operand(r, s.imm8()).advance(2)
}

/// RLC: A rotates left; bit 7 goes to bit 0 and to C.
pub open spec fn rlc(s: State) -> State {
    State { a: ((s.a * 2) % 256 + s.a / 128) as u8, f: with_carry(s.f, s.a >= 128), ..s }.advance(1)
}

/// RRC: A rotates right; bit 0 goes to bit 7 and to C.
pub open spec fn rrc(s: State) -> State {
    State { a: (s.a / 2 + (s.a % 2) * 128) as u8, f: with_carry(s.f, s.a % 2 == 1), ..s }.advance(1)
}

/// RAL: A rotates left through C: bit 0 takes the old C, C takes bit 7.
pub open spec fn ral(s: State) -> State {
    State {
        a: ((s.a * 2) % 256 + carry_bit(s.f)) as u8,
        f: with_carry(s.f, s.a >= 128),
        ..s
    }.advance(1)
}

/// RAR: A rotates right through C: bit 7 takes the old C, C takes bit 0.
pub open spec fn rar(s: State) -> State {
    State {
        a: (s.a / 2 + carry_bit(s.f) * 128) as u8,
        f: with_carry(s.f, s.a % 2 == 1),
        ..s
    }.advance(1)
}

/// MOV: operand `d` takes the value of operand `r`.
pub open spec fn mov(s: State, d: Register, r: Register) -> State {
    s.with_operand(d, s.operand(r)).advance(1)
}

/// An accumulator operation on a register operand (or M).
pub open spec fn alu_reg(s: State, op: AluOp, r: Register) -> State {
    let x = s.operand(r);
    alu_apply(s, op, x, alu_flags(op, s.a, x, s.f)).advance(1)
}

/// An accumulator operation on the byte after the opcode.
pub open spec fn alu_imm(s: State, op: AluOp) -> State {
    let x = s.imm8();
    alu_apply(s, op, x, alu_flags(op, s.a, x, s.f)).advance(2)
}

/// Conditional jump: to the operand word when the condition holds, else
/// past the three-byte instruction.
pub open spec fn jcond(s: State, c: Condition) -> State {
    if condition_holds(s.f, c) {
        State { pc: s.imm16(), ..s }
    } else {
        s.advance(3)
    }
}

/// Conditional call: as CALL when the condition holds, else past the
/// three-byte instruction.
pub open spec fn ccond(s: State, c: Condition) -> State {
    if condition_holds(s.f, c) {
        call(s, s.imm16())
    } else {
        s.advance(3)
    }
}

/// Conditional return: as RET when the condition holds, else past the
/// one-byte instruction.
pub open spec fn rcond(s: State, c: Condition) -> State {
    if condition_holds(s.f, c) {
        ret(s)
    } else {
        s.advance(1)
    }
}

/// RST n: the address of the next byte is pushed and PC becomes 8 * n.
pub open spec fn rst(s: State, n: u8) -> State {
    let next = s.advance(1);
    State { pc: (n * 8) as u16, ..next.push(next.pc) }
}

/// PUSH: a pair, or A and the flags, is pushed (F at the lower address).
pub open spec fn push_pair(s: State, p: Pair) -> State {
    s.push(s.stack_pair(p)).advance(1)
}

/// XCHG: DE and HL swap.
pub open spec fn xchg(s: State) -> State {
    let regs = s.regs.update(2, s.regs[4]).update(3, s.regs[5]).update(4, s.regs[2]).update(5, s.regs[3]);
    State { regs, ..s }.advance(1)
}

/// XTHL: L swaps with the byte at SP and H with the byte at SP + 1.
pub open spec fn xthl(s: State) -> State {
    let regs = s.regs.update(5, read_mem(s.mem, s.sp)).update(4, read_mem(s.mem, add16(s.sp, 1)));
    let mem = write_mem(write_mem(s.mem, add16(s.sp, 1), s.regs[4]), s.sp, s.regs[5]);
    State { regs, mem, ..s }.advance(1)
}

/// What one instruction does to the state.
pub open spec fn exec_instruction(s: State, ins: Instruction) -> State {
    match ins {
        Instruction::Nop => s.advance(1),
        Instruction::Lxi(p) => lxi(s, p),
        Instruction::Stax(p) => stax(s, p),
        Instruction::Ldax(p) => ldax(s, p),
        Instruction::Shld => shld(s),
        Instruction::Lhld => lhld(s),
        Instruction::Sta => sta(s),
        Instruction::Lda => lda(s),
        Instruction::Inx(p) => inx(s, p),
        Instruction::Dcx(p) => dcx(s, p),
        Instruction::Dad(p) => dad(s, p),
        Instruction::Inr(r) => inr(s, r),
        Instruction::Dcr(r) => dcr(s, r),
        Instruction::Mvi(r) => mvi(s, r),
        Instruction::Rlc => rlc(s),
        Instruction::Rrc => rrc(s),
        Instruction::Ral => ral(s),
        Instruction::Rar => rar(s),
        Instruction::Daa => daa(s).advance(1),
        Instruction::Cma => State { a: s.a ^ 0xFF, ..s }.advance(1),
        Instruction::Stc => State { f: with_carry(s.f, true), ..s }.advance(1),
        Instruction::Cmc => State { f: with_carry(s.f, !carry_of(s.f)), ..s }.advance(1),
        Instruction::Mov(d, r) => mov(s, d, r),
        Instruction::Hlt => State { halted: true, ..s }.advance(1),
        Instruction::Alu(op, r) => alu_reg(s, op, r),
        Instruction::AluImm(op) => alu_imm(s, op),
        Instruction::Jmp => State { pc: s.imm16(), ..s },
        Instruction::Jcond(c) => jcond(s, c),
        Instruction::Call => call(s, s.imm16()),
        Instruction::Ccond(c) => ccond(s, c),
        Instruction::Ret => ret(s),
        Instruction::Rcond(c) => rcond(s, c),
        Instruction::Rst(n) => rst(s, n),
        Instruction::Push(p) => push_pair(s, p),
        Instruction::Pop(p) => pop_pair(s, p),
        Instruction::Xchg => xchg(s),
        Instruction::Xthl => xthl(s),
        Instruction::Sphl => State { sp: s.hl(), ..s }.advance(1),
        Instruction::Pchl => State { pc: s.hl(), ..s },
        Instruction::In => s.advance(2),
        Instruction::Out => s.advance(2),
        Instruction::Ei => State { interrupts_enabled: true, ..s }.advance(1),
        Instruction::Di => State { interrupts_enabled: false, ..s }.advance(1),
    }
}

/// What executing the opcode byte `op` does to the state.
pub open spec fn execute_spec(s: State, op: u8) -> State {
    exec_instruction(s, decode(op))
}

/// Interrupt acknowledge: when interrupts are enabled and one is pending,
/// PC is pushed, interrupts are disabled, the request is cleared, the halt
/// ends and execution goes on at the requested vector.
pub open spec fn acknowledge(s: State) -> State {
    if s.interrupts_enabled && s.interrupt_pending {
        State {
            pc: s.interrupt_vector,
            interrupts_enabled: false,
            interrupt_pending: false,
            halted: false,
            ..s.push(s.pc)
        }
    } else {
        s
    }
}

/// One step: unless halted, execute the opcode at PC; then acknowledge a
/// pending interrupt.
pub open spec fn step_spec(s: State) -> State {
    let executed = if s.halted {
        s
    } else {
        execute_spec(s, read_mem(s.mem, s.pc))
    };
    acknowledge(executed)
}

/// Flag layout: if the flag byte has bit 1 set and bits 3 and 5 clear
/// before an instruction, it still has after it, and after a whole step.
pub proof fn lemma_flag_layout_kept(s: State, op: u8)
    requires
        fixed_bits_ok(s.f),
    ensures
        fixed_bits_ok(execute_spec(s, op).f),
        fixed_bits_ok(step_spec(s).f),
{
    lemma_flag_layout_kept_by(s, decode(op));
    lemma_flag_layout_kept_by(s, decode(read_mem(s.mem, s.pc)));
}

/// Flag layout is kept by each instruction family.
proof fn lemma_flag_layout_kept_by(s: State, ins: Instruction)
    requires
        fixed_bits_ok(s.f),
    ensures
        fixed_bits_ok(exec_instruction(s, ins).f),
{
    match ins {
        Instruction::Pop(p) => {
            lemma_normalize_flags(decompose(s.top()).1);
            assert(fixed_bits_ok(pop_pair(s, p).f));
        },
        Instruction::Alu(op, r) => {
            assert(fixed_bits_ok(alu_flags(op, s.a, s.operand(r), s.f)));
            assert(fixed_bits_ok(alu_reg(s, op, r).f));
        },
        Instruction::AluImm(op) => {
            assert(fixed_bits_ok(alu_flags(op, s.a, s.imm8(), s.f)));
            assert(fixed_bits_ok(alu_imm(s, op).f));
        },
        Instruction::Inr(r) => assert(fixed_bits_ok(inr(s, r).f)),
        Instruction::Dcr(r) => assert(fixed_bits_ok(dcr(s, r).f)),
        Instruction::Dad(p) => assert(fixed_bits_ok(dad(s, p).f)),
        Instruction::Daa => assert(fixed_bits_ok(daa(s).f)),
        Instruction::Rlc => assert(fixed_bits_ok(rlc(s).f)),
        Instruction::Rrc => assert(fixed_bits_ok(rrc(s).f)),
        Instruction::Ral => assert(fixed_bits_ok(ral(s).f)),
        Instruction::Rar => assert(fixed_bits_ok(rar(s).f)),
        Instruction::Mov(d, r) => assert(mov(s, d, r).f == s.f),
        Instruction::Mvi(r) => assert(mvi(s, r).f == s.f),
        _ => {},
    }
}

/// Parity, zero and sign: after every instruction that sets S, Z and P,
/// they describe its eight-bit result; P is set exactly when the result
/// has an even number of one bits.
pub proof fn lemma_szp_of_result(s: State, ins: Instruction)
    ensures
        ({
            let t = exec_instruction(s, ins);
            let result = match ins {
                Instruction::Alu(op, r) => alu_result(op, s.a, s.operand(r), s.f),
                Instruction::AluImm(op) => alu_result(op, s.a, s.imm8(), s.f),
                Instruction::Inr(r) => ((s.operand(r) + 1) % 256) as u8,
                Instruction::Dcr(r) => ((s.operand(r) - 1) % 256) as u8,
                _ => t.a,
            };
            (ins is Alu || ins is AluImm || ins is Inr || ins is Dcr || ins is Daa) ==> (
            parity_of(t.f) == even_parity(result) && zero_of(t.f) == (result == 0) && sign_of(t.f)
                == (result >= 128))
        }),
{
}

/// A pushed word is on top of the stack, and popping it restores SP.
pub proof fn lemma_push_then_top(s: State, v: u16)
    requires
        add16(s.sp, -1) < s.mem.len(),
        add16(s.sp, -2) < s.mem.len(),
    ensures
        s.push(v).top() == v,
        s.push(v).pop().sp == s.sp,
{
    assert(add16(add16(s.sp, -2), 1) == add16(s.sp, -1));
    assert(add16(add16(s.sp, -2), 2) == s.sp);
    assert(add16(s.sp, -1) != add16(s.sp, -2));
}

/// PUSH followed by POP of the same pair gives back SP and the pair (for
/// the program status word, A and the flags); only PC and the two stack
/// bytes differ.
pub proof fn lemma_push_pop(s: State, p: Pair)
    requires
        s.regs.len() == 6,
        fixed_bits_ok(s.f),
        add16(s.sp, -1) < s.mem.len(),
        add16(s.sp, -2) < s.mem.len(),
    ensures
        ({
            let pushed = exec_instruction(s, Instruction::Push(p));
            let t = exec_instruction(pushed, Instruction::Pop(p));
            &&& t.sp == s.sp
            &&& t.stack_pair(p) == s.stack_pair(p)
            &&& t == State { pc: add16(s.pc, 2), mem: pushed.mem, ..s }
        }),
{
    let pushed = exec_instruction(s, Instruction::Push(p));
    let v = s.stack_pair(p);
    lemma_push_then_top(s, v);
    assert(pushed == s.push(v).advance(1));
    lemma_pop_of(pushed, p, v);
}

/// POP of the word that the pair (or A and the flags) already holds only
/// moves SP and PC.
proof fn lemma_pop_of(pushed: State, p: Pair, v: u16)
    requires
        pushed.top() == v,
        pushed.regs.len() == 6,
        fixed_bits_ok(pushed.f),
        (p is SP) ==> v == compose(pushed.a, pushed.f),
        (p is BC) ==> v == compose(pushed.regs[0], pushed.regs[1]),
        (p is DE) ==> v == compose(pushed.regs[2], pushed.regs[3]),
        (p is HL) ==> v == compose(pushed.regs[4], pushed.regs[5]),
    ensures
        exec_instruction(pushed, Instruction::Pop(p)) == (State {
            sp: add16(pushed.sp, 2),
            pc: add16(pushed.pc, 1),
            ..pushed
        }),
{
    let t = pop_pair(pushed, p);
    assert(exec_instruction(pushed, Instruction::Pop(p)) == t);
    match p {
        Pair::SP => {
            lemma_normalize_flags(pushed.f);
        },
        _ => {
            assert(t.regs =~= pushed.regs);
        },
    }
}

/// CALL followed by RET, with no stack write between, comes back to the
/// instruction after the CALL with SP as it was.
pub proof fn lemma_call_ret(s: State)
    requires
        add16(s.sp, -1) < s.mem.len(),
        add16(s.sp, -2) < s.mem.len(),
    ensures
        ({
            let called = execute_spec(s, 0xCD);
            let t = execute_spec(called, 0xC9);
            t.pc == add16(s.pc, 3) && t.sp == s.sp
        }),
{
    let next = s.advance(3);
    assert(decode(0xCD) == Instruction::Call);
    assert(decode(0xC9) == Instruction::Ret);
    let called = execute_spec(s, 0xCD);
    lemma_push_then_top(next, next.pc);
    assert(called == State { pc: s.imm16(), ..next.push(next.pc) });
    assert(called.top() == next.pc);
}

/// RST n pushes the address of the byte after it and jumps to 8 * n.
pub proof fn lemma_rst(s: State, n: u8)
    requires
        n < 8,
        add16(s.sp, -1) < s.mem.len(),
        add16(s.sp, -2) < s.mem.len(),
    ensures
        ({
            let t = execute_spec(s, (0xC7 + 8 * n) as u8);
            &&& t.pc == 8 * n
            &&& t.sp == add16(s.sp, -2)
            &&& t.top() == add16(s.pc, 1)
        }),
{
    let op = (0xC7 + 8 * n) as u8;
    assert(decode(op) == Instruction::Rst(n));
    assert(add16(add16(s.sp, -2), 1) == add16(s.sp, -1));
    assert(add16(s.sp, -1) != add16(s.sp, -2));
}

/// A conditional jump, call or return whose condition fails only moves PC
/// past itself: by three bytes for a jump or call, one for a return.
pub proof fn lemma_branch_not_taken(s: State, c: Condition)
    requires
        !condition_holds(s.f, c),
    ensures
        exec_instruction(s, Instruction::Jcond(c)) == s.advance(3),
        exec_instruction(s, Instruction::Ccond(c)) == s.advance(3),
        exec_instruction(s, Instruction::Rcond(c)) == s.advance(1),
{
}

} // verus!
