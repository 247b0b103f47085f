//! Laws of the instruction set, stated over the model and proved.
use vstd::prelude::*;
use crate::instruction::{Instruction, decode_spec};
use crate::model::{ExecError, Machine, apply, cycle_spec, sprite_covers, suspends, key_held, PROGRAM_START};

verus! {

/// Adding an immediate byte `k` to register `x` leaves `(old + k) mod 256`
/// there and every other register as it was.
pub proof fn add_immediate_wraps(m: Machine, x: u8, k: u8, keys: Seq<bool>, rnd: u8)
    requires
        m.wf(),
        x < 16,
    ensures
        apply(m, Instruction::AddImm { x, kk: k }, keys, rnd) is Ok,
        apply(m, Instruction::AddImm { x, kk: k }, keys, rnd)->Ok_0.reg(x) == (m.reg(x) + k) % 256,
        forall|j: u8|
            j < 16 && j != x ==> #[trigger] apply(m, Instruction::AddImm { x, kk: k }, keys, rnd)->Ok_0.reg(j)
                == m.reg(j),
{
}

/// Adding register `y` to register `x` (`x` not the flag register) leaves the
/// sum modulo 256 in `x` and sets the flag register to 1 exactly when the sum
/// exceeds 255.
pub proof fn add_with_carry_flags(m: Machine, x: u8, y: u8, keys: Seq<bool>, rnd: u8)
    requires
        m.wf(),
        x < 15,
        y < 16,
    ensures
        apply(m, Instruction::AddCarry { x, y }, keys, rnd) is Ok,
        apply(m, Instruction::AddCarry { x, y }, keys, rnd)->Ok_0.reg(15) == if m.reg(x) + m.reg(y)
            > 255 {
            1u8
        } else {
            0u8
        },
        apply(m, Instruction::AddCarry { x, y }, keys, rnd)->Ok_0.reg(x) == (m.reg(x) + m.reg(y))
            % 256,
{
}

/// After clearing the display, a draw leaves on only pixels that the sprite
/// covers, and reports no collision.
pub proof fn draw_after_clear_sets_only_sprite(
    m: Machine,
    x: u8,
    y: u8,
    n: u8,
    keys: Seq<bool>,
    rnd: u8,
)
    requires
        m.wf(),
        x < 16,
        y < 16,
        n < 16,
    ensures
        ({
            let cleared = apply(m, Instruction::Clear, keys, rnd)->Ok_0;
            let after = apply(cleared, Instruction::Draw { x, y, n }, keys, rnd)->Ok_0;
            &&& apply(m, Instruction::Clear, keys, rnd) is Ok
            &&& apply(cleared, Instruction::Draw { x, y, n }, keys, rnd) is Ok
            &&& after.reg(15) == 0
            &&& forall|p: int|
                0 <= p < 2048 && #[trigger] after.display[p] ==> sprite_covers(
                    m.memory,
                    m.index,
                    n as int,
                    (m.reg(x) % 64) as int,
                    (m.reg(y) % 32) as int,
                    p % 64,
                    p / 64,
                )
        }),
{
}

/// Drawing the same sprite twice at the same place, with neither coordinate
/// held in the flag register, restores the frame buffer.
pub proof fn draw_twice_restores_display(
    m: Machine,
    x: u8,
    y: u8,
    n: u8,
    keys: Seq<bool>,
    rnd: u8,
)
    requires
        m.wf(),
        x < 15,
        y < 15,
        n < 16,
    ensures
        ({
            let once = apply(m, Instruction::Draw { x, y, n }, keys, rnd)->Ok_0;
            let twice = apply(once, Instruction::Draw { x, y, n }, keys, rnd)->Ok_0;
            &&& apply(m, Instruction::Draw { x, y, n }, keys, rnd) is Ok
            &&& apply(once, Instruction::Draw { x, y, n }, keys, rnd) is Ok
            &&& twice.display == m.display
        }),
{
    let once = apply(m, Instruction::Draw { x, y, n }, keys, rnd)->Ok_0;
    let twice = apply(once, Instruction::Draw { x, y, n }, keys, rnd)->Ok_0;
    assert(once.reg(x) == m.reg(x));
    assert(once.reg(y) == m.reg(y));
    assert(twice.display =~= m.display);
}

/// A call followed by a return brings back the program counter and the stack
/// pointer; only the stack slot above the top keeps the return address.
pub proof fn call_then_return_restores(m: Machine, addr: u16, keys: Seq<bool>, rnd: u8)
    requires
        m.wf(),
        m.sp < 16,
        addr < 4096,
    ensures
        ({
            let called = apply(m, Instruction::Call { addr }, keys, rnd)->Ok_0;
            &&& apply(m, Instruction::Call { addr }, keys, rnd) is Ok
            &&& apply(called, Instruction::Return, keys, rnd) == Ok::<Machine, ExecError>(
                Machine { stack: m.stack.update(m.sp, m.pc as u16), ..m },
            )
            &&& apply(called, Instruction::Return, keys, rnd)->Ok_0.pc == m.pc
            &&& apply(called, Instruction::Return, keys, rnd)->Ok_0.sp == m.sp
        }),
{
}

/// The instructions that skip the next one on a condition.
pub open spec fn is_skip(ins: Instruction) -> bool {
    ||| ins is SkipEqImm
    ||| ins is SkipNeImm
    ||| ins is SkipEqReg
    ||| ins is SkipNeReg
    ||| ins is SkipKey
    ||| ins is SkipNoKey
}

/// The condition under which a skip instruction skips, in state `m`.
pub open spec fn skip_taken(m: Machine, ins: Instruction, keys: Seq<bool>) -> bool {
    match ins {
        Instruction::SkipEqImm { x, kk } => m.reg(x) == kk,
        Instruction::SkipNeImm { x, kk } => m.reg(x) != kk,
        Instruction::SkipEqReg { x, y } => m.reg(x) == m.reg(y),
        Instruction::SkipNeReg { x, y } => m.reg(x) != m.reg(y),
        Instruction::SkipKey { x } => key_held(keys, m.reg(x)),
        Instruction::SkipNoKey { x } => !key_held(keys, m.reg(x)),
        _ => false,
    }
}

/// A cycle that runs a skip instruction advances the program counter by 4
/// where the condition holds and by 2 where it does not, and changes neither
/// registers, memory nor the frame buffer.
pub proof fn skip_advances(m: Machine, keys: Seq<bool>, rnd: u8)
    requires
        m.wf(),
        m.pc <= 4091,
        decode_spec(m.memory[m.pc], m.memory[m.pc + 1]) matches Some(ins) && is_skip(ins),
    ensures
        cycle_spec(m, keys, rnd) is Ok,
        cycle_spec(m, keys, rnd)->Ok_0.0.pc == m.pc + if skip_taken(
            m,
            decode_spec(m.memory[m.pc], m.memory[m.pc + 1])->Some_0,
            keys,
        ) {
            4int
        } else {
            2int
        },
        cycle_spec(m, keys, rnd)->Ok_0.0.registers == m.registers,
        cycle_spec(m, keys, rnd)->Ok_0.0.memory == m.memory,
        cycle_spec(m, keys, rnd)->Ok_0.0.display == m.display,
{
}

/// A fetch never reads past the end of memory: at the last address, where no
/// whole word is left, the cycle only wraps the program counter to the
/// program start.
pub proof fn fetch_at_last_address_wraps(m: Machine, keys: Seq<bool>, rnd: u8)
    requires
        m.wf(),
        m.pc == 4095,
    ensures
        cycle_spec(m, keys, rnd) == Ok::<(Machine, bool), ExecError>(
            (m.with_pc(PROGRAM_START as int), false),
        ),
{
}

/// At the address before the last, the word there is read and its
/// instruction runs with the program counter already wrapped to the program
/// start.
pub proof fn fetch_before_last_address_wraps(
    m: Machine,
    ins: Instruction,
    keys: Seq<bool>,
    rnd: u8,
)
    requires
        m.wf(),
        m.pc == 4094,
        decode_spec(m.memory[4094], m.memory[4095]) == Some(ins),
        !suspends(ins, keys),
    ensures
        cycle_spec(m, keys, rnd) == match apply(m.with_pc(PROGRAM_START as int), ins, keys, rnd) {
            Ok(m2) => Ok((m2, ins.touches_display_spec())),
            Err(e) => Err(e),
        },
{
}

} // verus!
