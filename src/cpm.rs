//! The CP/M conventions that the classic 8080 self-test programs expect:
//! a `.COM` image loaded at 0x0100, a return at the BDOS entry 0x0005, and
//! BDOS console functions 2 (print the character in E) and 9 (print the
//! string at DE up to a `$`).

use crate::cpu::{CPU, State, add16, read_mem};
use crate::register::Register;
use vstd::prelude::*;

verus! {

/// The size of the memory image: the whole sixteen-bit address space.
pub const MEMORY_SIZE: usize = 65536;

/// Where a `.COM` program is loaded, and where it starts.
pub const PROGRAM_ORIGIN: u16 = 0x0100;

/// The BDOS entry point.
pub const BDOS_ENTRY: u16 = 0x0005;

/// The CP/M warm-boot address; the self-test programs jump there when they
/// are done.
pub const WARM_BOOT: u16 = 0x0000;

/// The RET opcode placed at the BDOS entry.
pub const RET: u8 = 0xC9;

/// The BDOS function that prints the character in E.
pub const PRINT_CHAR: u8 = 0x02;

/// The BDOS function that prints the string at DE.
pub const PRINT_STRING: u8 = 0x09;

/// The end marker of a BDOS string.
pub const STRING_END: u8 = 0x24;

/// The byte of a `.COM` memory image at address `i`.
pub open spec fn com_image_byte(program: Seq<u8>, i: int) -> u8 {
    if PROGRAM_ORIGIN <= i < PROGRAM_ORIGIN + program.len() {
        program[i - PROGRAM_ORIGIN]
    } else if i == BDOS_ENTRY {
        RET
    } else {
        0
    }
}

/// A full memory image holding `program` at 0x0100 and RET at the BDOS
/// entry; `None` when the program does not fit.
pub fn com_image(program: &Vec<u8>) -> (r: Option<Vec<u8>>)
    ensures
        r is None <==> program@.len() > MEMORY_SIZE - PROGRAM_ORIGIN,
        r matches Some(m) ==> m@.len() == MEMORY_SIZE && forall|i: int|
            0 <= i < MEMORY_SIZE ==> #[trigger] m@[i] == com_image_byte(program@, i),
{
    if program.len() > MEMORY_SIZE - PROGRAM_ORIGIN as usize {
        return None;
    }
    let mut m: Vec<u8> = Vec::new();
    let mut i: usize = 0;
    while i < MEMORY_SIZE
        invariant
            program@.len() <= MEMORY_SIZE - PROGRAM_ORIGIN,
            i <= MEMORY_SIZE,
            m@.len() == i,
            forall|j: int| 0 <= j < i ==> #[trigger] m@[j] == com_image_byte(program@, j),
        decreases MEMORY_SIZE - i,
    {
        let origin = PROGRAM_ORIGIN as usize;
        let b = if origin <= i && i < origin + program.len() {
            program[i - origin]
        } else if i == BDOS_ENTRY as usize {
            RET
        } else {
            0
        };
        m.push(b);
        i = i + 1;
    }
    Some(m)
}

/// Whether `out` is the BDOS string at `start`: the bytes from `start`
/// (wrapping) up to the first `$`, or the whole address space when there
/// is none.
pub open spec fn is_bdos_string(mem: Seq<u8>, start: u16, out: Seq<u8>) -> bool {
    &&& out.len() <= MEMORY_SIZE
    &&& forall|k: int|
        0 <= k < out.len() ==> #[trigger] out[k] == read_mem(mem, add16(start, k)) && out[k]
            != STRING_END
    &&& out.len() < MEMORY_SIZE ==> read_mem(mem, add16(start, out.len() as int)) == STRING_END
}

/// What the BDOS prints when it is entered in state `s`: the character in E
/// for function 2, the string at DE for function 9, nothing otherwise.
pub open spec fn is_bdos_output(s: State, out: Seq<u8>) -> bool {
    if s.pc != BDOS_ENTRY {
        out.len() == 0
    } else if s.regs[1] == PRINT_CHAR {
        out == seq![s.regs[3]]
    } else if s.regs[1] == PRINT_STRING {
        is_bdos_string(s.mem, ((s.regs[2] as int) * 256 + s.regs[3]) as u16, out)
    } else {
        out.len() == 0
    }
}

/// The console output of a BDOS call, when PC is at the BDOS entry.
pub fn bdos_output(cpu: &CPU) -> (r: Vec<u8>)
    ensures
        is_bdos_output(cpu@, r@),
{
    let mut out: Vec<u8> = Vec::new();
    if cpu.pc() != BDOS_ENTRY as usize {
        return out;
    }
    let function = cpu.register_or_memory_data(Register::C);
    if function == PRINT_CHAR {
        out.push(cpu.register_or_memory_data(Register::E));
        assert(out@ =~= seq![cpu@.regs[3]]);
    } else if function == PRINT_STRING {
        let start = CPU::compose_to_u16(
            cpu.register_or_memory_data(Register::D),
            cpu.register_or_memory_data(Register::E),
        );
        let mut addr: u16 = start;
        let mut done = false;
        while !done && out.len() < MEMORY_SIZE
            invariant
                out@.len() <= MEMORY_SIZE,
                addr == add16(start, out@.len() as int),
                forall|k: int|
                    0 <= k < out@.len() ==> #[trigger] out@[k] == read_mem(cpu@.mem, add16(start, k))
                        && out@[k] != STRING_END,
                done ==> read_mem(cpu@.mem, addr) == STRING_END,
            decreases MEMORY_SIZE - out@.len(), (if done { 0int } else { 1int }),
        {
            let ch = cpu.get_value(addr as usize);
            if ch == STRING_END {
                done = true;
            } else {
                out.push(ch);
                addr = ((addr as u32 + 1) % 65536) as u16;
            }
        }
    }
    out
}

/// Whether a program run is over: the processor has halted, or it has
/// reached the warm-boot address.
pub fn program_ended(cpu: &CPU) -> (r: bool)
    ensures
        r == (cpu@.halted || cpu@.pc == WARM_BOOT),
{
    cpu.is_halted() || cpu.pc() == WARM_BOOT as usize
}

} // verus!
