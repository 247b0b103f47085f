//! The mathematical model of the machine and the meaning of each instruction.
use vstd::prelude::*;
use crate::instruction::{Instruction, decode_spec, word};
use crate::font::{FONT_BASE, glyph};

verus! {

/// Address at which programs are loaded and to which the program counter wraps.
pub const PROGRAM_START: u16 = 0x200;

/// A failure that stops the machine.
#[derive(Clone, Copy, Debug, PartialEq, Eq, Structural)]
pub enum ExecError {
    /// The word at the program counter encodes no instruction.
    InvalidOpcode { word: u16 },
    /// A call with all stack entries in use.
    StackOverflow,
    /// A return with an empty stack.
    StackUnderflow,
}

/// The abstract state of the machine.
pub ghost struct Machine {
    pub memory: Seq<u8>,
    pub registers: Seq<u8>,
    pub pc: int,
    pub index: int,
    pub stack: Seq<u16>,
    pub sp: int,
    pub delay_timer: u8,
    pub sound_timer: u8,
    /// Row-major, 64 columns by 32 rows, `true` for on.
    pub display: Seq<bool>,
}

impl Machine {
    /// The shape and range facts every reachable state satisfies.
    pub open spec fn wf(self) -> bool {
        &&& self.memory.len() == 4096
        &&& self.registers.len() == 16
        &&& self.stack.len() == 16
        &&& self.display.len() == 2048
        &&& 0 <= self.pc < 4096
        &&& 0 <= self.index < 4096
        &&& 0 <= self.sp <= 16
        &&& forall|i: int| 0 <= i < 16 ==> #[trigger] self.stack[i] < 4096
    }

    pub open spec fn reg(self, x: u8) -> u8 {
        self.registers[x as int]
    }

    pub open spec fn with_reg(self, x: u8, v: u8) -> Machine {
        Machine { registers: self.registers.update(x as int, v), ..self }
    }

    /// The register `x` set to `v` and then the flag register to `f`.
    pub open spec fn with_reg_flag(self, x: u8, v: u8, f: u8) -> Machine {
        Machine { registers: self.registers.update(x as int, v).update(15, f), ..self }
    }

    /// The flag register set to `f` and then register `x` to `v`.
    pub open spec fn with_flag_reg(self, f: u8, x: u8, v: u8) -> Machine {
        Machine { registers: self.registers.update(15, f).update(x as int, v), ..self }
    }

    pub open spec fn with_pc(self, pc: int) -> Machine {
        Machine { pc, ..self }
    }

    /// Skips the next instruction where `cond` holds.
    pub open spec fn skip_if(self, cond: bool) -> Machine {
        if cond {
            self.with_pc(advance(self.pc))
        } else {
            self
        }
    }

    pub open spec fn pixel(self, px: int, py: int) -> bool {
        self.display[py * 64 + px]
    }
}

/// The address of the instruction after the one at `pc`; past the top of
/// memory this wraps to the program start.
pub open spec fn advance(pc: int) -> int {
    if pc + 2 < 4096 {
        pc + 2
    } else {
        PROGRAM_START as int
    }
}

/// The memory address `base + k`, wrapped into the 12-bit space.
pub open spec fn addr_wrap(base: int, k: int) -> int {
    (base + k) % 4096
}

/// Whether the key with number `k` is held; numbers past the pad are never held.
pub open spec fn key_held(keys: Seq<bool>, k: u8) -> bool {
    k < 16 && keys[k as int]
}

/// The lowest-numbered held key among `i .. 16`.
pub open spec fn first_held_from(keys: Seq<bool>, i: int) -> Option<u8>
    decreases 16 - i,
{
    if i >= 16 || i < 0 {
        None
    } else if keys[i] {
        Some(i as u8)
    } else {
        first_held_from(keys, i + 1)
    }
}

/// The lowest-numbered held key.
pub open spec fn first_held(keys: Seq<bool>) -> Option<u8> {
    first_held_from(keys, 0)
}

/// Bit `b` (0 = leftmost, `b < 8`) of a sprite row.
pub open spec fn row_bit(row: u8, b: u8) -> bool {
    (row >> ((7 - b) as u8)) & 1u8 == 1u8
}

/// Whether pixel `(px, py)` is covered by a set bit of the sprite of `n` rows
/// at `memory[index ..]` drawn with origin `(ox, oy)`. Parts past the right and
/// bottom edges are clipped.
pub open spec fn sprite_covers(
    memory: Seq<u8>,
    index: int,
    n: int,
    ox: int,
    oy: int,
    px: int,
    py: int,
) -> bool {
    &&& ox <= px < ox + 8
    &&& oy <= py < oy + n
    &&& 0 <= px < 64
    &&& 0 <= py < 32
    &&& row_bit(memory[addr_wrap(index, py - oy)], (px - ox) as u8)
}

/// The frame after XOR-ing the sprite onto `display`.
pub open spec fn drawn(
    display: Seq<bool>,
    memory: Seq<u8>,
    index: int,
    n: int,
    ox: int,
    oy: int,
) -> Seq<bool> {
    Seq::new(
        2048,
        |p: int|
            if sprite_covers(memory, index, n, ox, oy, p % 64, p / 64) {
                !display[p]
            } else {
                display[p]
            },
    )
}

/// Whether drawing the sprite turns some pixel off.
pub open spec fn collides(
    display: Seq<bool>,
    memory: Seq<u8>,
    index: int,
    n: int,
    ox: int,
    oy: int,
) -> bool {
    exists|p: int|
        0 <= p < 2048 && #[trigger] display[p] && sprite_covers(
            memory,
            index,
            n,
            ox,
            oy,
            p % 64,
            p / 64,
        )
}

/// The effect of the draw instruction on `m`.
pub open spec fn draw_spec(m: Machine, x: u8, y: u8, n: u8) -> Machine {
    let ox = m.reg(x) % 64;
    let oy = m.reg(y) % 32;
    let hit = collides(m.display, m.memory, m.index, n as int, ox as int, oy as int);
    Machine {
        display: drawn(m.display, m.memory, m.index, n as int, ox as int, oy as int),
        registers: m.registers.update(15, if hit { 1u8 } else { 0u8 }),
        ..m
    }
}

/// Memory after storing registers `0 ..= x` at `index ..`.
pub open spec fn stored_regs(m: Machine, x: u8) -> Seq<u8> {
    Seq::new(
        4096,
        |a: int|
            if (a - m.index + 4096) % 4096 <= x as int {
                m.registers[(a - m.index + 4096) % 4096]
            } else {
                m.memory[a]
            },
    )
}

/// Registers after loading registers `0 ..= x` from `index ..`.
pub open spec fn loaded_regs(m: Machine, x: u8) -> Seq<u8> {
    Seq::new(
        16,
        |k: int|
            if k <= x as int {
                m.memory[addr_wrap(m.index, k)]
            } else {
                m.registers[k]
            },
    )
}

/// Memory after storing the decimal digits of `v` at `index`, `index + 1`,
/// `index + 2`.
pub open spec fn stored_bcd(m: Machine, v: u8) -> Seq<u8> {
    m.memory.update(addr_wrap(m.index, 0), v / 100).update(addr_wrap(m.index, 1), (v / 10) % 10).update(
        addr_wrap(m.index, 2),
        v % 10,
    )
}

/// The result of executing `ins` on `m`, where the program counter of `m`
/// already points past `ins`; `keys` are the held keys and `rnd` the random
/// byte drawn for this cycle.
pub open spec fn apply(m: Machine, ins: Instruction, keys: Seq<bool>, rnd: u8) -> Result<
    Machine,
    ExecError,
> {
    match ins {
        Instruction::Nop => Ok(m),
        Instruction::Sys { addr } => Ok(m.with_pc(addr as int)),
        Instruction::Clear => Ok(Machine { display: Seq::new(2048, |p: int| false), ..m }),
        Instruction::Return => if m.sp == 0 {
            Err(ExecError::StackUnderflow)
        } else {
            Ok(Machine { pc: m.stack[m.sp - 1] as int, sp: m.sp - 1, ..m })
        },
        Instruction::Jump { addr } => Ok(m.with_pc(addr as int)),
        Instruction::Call { addr } => if m.sp >= 16 {
            Err(ExecError::StackOverflow)
        } else {
            Ok(
                Machine {
                    stack: m.stack.update(m.sp, m.pc as u16),
                    sp: m.sp + 1,
                    pc: addr as int,
                    ..m
                },
            )
        },
        Instruction::SkipEqImm { x, kk } => Ok(m.skip_if(m.reg(x) == kk)),
        Instruction::SkipNeImm { x, kk } => Ok(m.skip_if(m.reg(x) != kk)),
        Instruction::SkipEqReg { x, y } => Ok(m.skip_if(m.reg(x) == m.reg(y))),
        Instruction::SkipNeReg { x, y } => Ok(m.skip_if(m.reg(x) != m.reg(y))),
        Instruction::LoadImm { x, kk } => Ok(m.with_reg(x, kk)),
        Instruction::AddImm { x, kk } => Ok(m.with_reg(x, ((m.reg(x) + kk) % 256) as u8)),
        Instruction::LoadReg { x, y } => Ok(m.with_reg(x, m.reg(y))),
        Instruction::Or { x, y } => Ok(m.with_reg(x, m.reg(x) | m.reg(y))),
        Instruction::And { x, y } => Ok(m.with_reg(x, m.reg(x) & m.reg(y))),
        Instruction::Xor { x, y } => Ok(m.with_reg(x, m.reg(x) ^ m.reg(y))),
        Instruction::AddCarry { x, y } => {
            let sum = m.reg(x) + m.reg(y);
            Ok(m.with_flag_reg(if sum > 255 { 1 } else { 0 }, x, (sum % 256) as u8))
        },
        Instruction::Sub { x, y } => Ok(
            m.with_flag_reg(
                if m.reg(x) > m.reg(y) { 1 } else { 0 },
                x,
                ((m.reg(x) - m.reg(y) + 256) % 256) as u8,
            ),
        ),
        Instruction::SubN { x, y } => Ok(
            m.with_flag_reg(
                if m.reg(y) > m.reg(x) { 1 } else { 0 },
                x,
                ((m.reg(y) - m.reg(x) + 256) % 256) as u8,
            ),
        ),
        Instruction::ShiftRight { x, y } => Ok(
            m.with_flag_reg(m.reg(x) % 2, x, m.reg(x) / 2),
        ),
        Instruction::ShiftLeft { x, y } => Ok(
            m.with_flag_reg(m.reg(x) / 128, x, ((m.reg(x) * 2) % 256) as u8),
        ),
        Instruction::LoadIndex { addr } => Ok(Machine { index: addr as int, ..m }),
        Instruction::JumpV0 { addr } => Ok(m.with_pc(addr_wrap(m.reg(0) as int, addr as int))),
        Instruction::Random { x, kk } => Ok(m.with_reg(x, rnd & kk)),
        Instruction::Draw { x, y, n } => Ok(draw_spec(m, x, y, n)),
        Instruction::SkipKey { x } => Ok(m.skip_if(key_held(keys, m.reg(x)))),
        Instruction::SkipNoKey { x } => Ok(m.skip_if(!key_held(keys, m.reg(x)))),
        Instruction::LoadDelay { x } => Ok(m.with_reg(x, m.delay_timer)),
        Instruction::WaitKey { x } => match first_held(keys) {
            Some(k) => Ok(m.with_reg(x, k)),
            None => Ok(m),
        },
        Instruction::SetDelay { x } => Ok(Machine { delay_timer: m.reg(x), ..m }),
        Instruction::SetSound { x } => Ok(Machine { sound_timer: m.reg(x), ..m }),
        Instruction::AddIndex { x } => Ok(
            Machine { index: addr_wrap(m.index, m.reg(x) as int), ..m },
        ),
        Instruction::LoadFont { x } => Ok(
            Machine { index: FONT_BASE + 5 * (m.reg(x) % 16), ..m },
        ),
        Instruction::StoreBcd { x } => Ok(Machine { memory: stored_bcd(m, m.reg(x)), ..m }),
        Instruction::StoreRegs { x } => Ok(Machine { memory: stored_regs(m, x), ..m }),
        Instruction::LoadRegs { x } => Ok(Machine { registers: loaded_regs(m, x), ..m }),
    }
}

/// Whether the cycle stays on the instruction: a key-wait with no key held.
pub open spec fn suspends(ins: Instruction, keys: Seq<bool>) -> bool {
    ins is WaitKey && first_held(keys) is None
}

/// One cycle: the new state and whether the frame buffer was touched, or the
/// failure, in which case the state is left as it was. The word at the
/// program counter is read and the counter advanced past it before the
/// instruction runs. At the last address of memory, where no whole word is
/// left, the counter only wraps to the program start. A key-wait with no key
/// held leaves the state as it was, so the next cycle runs it again.
pub open spec fn cycle_spec(m: Machine, keys: Seq<bool>, rnd: u8) -> Result<
    (Machine, bool),
    ExecError,
> {
    if m.pc >= 4095 {
        Ok((m.with_pc(PROGRAM_START as int), false))
    } else {
        let hi = m.memory[m.pc];
        let lo = m.memory[m.pc + 1];
        match decode_spec(hi, lo) {
            None => Err(ExecError::InvalidOpcode { word: word(hi, lo) }),
            Some(ins) => if suspends(ins, keys) {
                Ok((m, false))
            } else {
                match apply(m.with_pc(advance(m.pc)), ins, keys, rnd) {
                    Ok(m2) => Ok((m2, ins.touches_display_spec())),
                    Err(e) => Err(e),
                }
            },
        }
    }
}

/// The byte at address `a` of memory holding only the font.
pub open spec fn font_byte(a: int) -> u8 {
    if FONT_BASE <= a < FONT_BASE + 80 {
        glyph(((a - FONT_BASE) / 5) as u8)[(a - FONT_BASE) % 5]
    } else {
        0
    }
}

/// The state after start-up: everything zero but the font and the program
/// counter, which points at the program start.
pub open spec fn initial_machine() -> Machine {
    Machine {
        memory: Seq::new(4096, |a: int| font_byte(a)),
        registers: Seq::new(16, |i: int| 0u8),
        pc: PROGRAM_START as int,
        index: 0,
        stack: Seq::new(16, |i: int| 0u16),
        sp: 0,
        delay_timer: 0,
        sound_timer: 0,
        display: Seq::new(2048, |p: int| false),
    }
}

/// `memory` with the font written at `FONT_BASE ..= FONT_BASE + 79`.
pub open spec fn with_font(memory: Seq<u8>) -> Seq<u8> {
    Seq::new(
        4096,
        |a: int|
            if FONT_BASE <= a < FONT_BASE + 80 {
                font_byte(a)
            } else {
                memory[a]
            },
    )
}

/// Memory with `program` copied in from the program start on.
pub open spec fn with_program(memory: Seq<u8>, program: Seq<u8>) -> Seq<u8> {
    Seq::new(
        4096,
        |a: int|
            if PROGRAM_START <= a < PROGRAM_START + program.len() {
                program[a - PROGRAM_START]
            } else {
                memory[a]
            },
    )
}

/// Executing a decoded instruction right after a fetch keeps a state well formed.
pub proof fn lemma_apply_wf(m: Machine, ins: Instruction, keys: Seq<bool>, rnd: u8)
    requires
        m.wf(),
        ins.wf(),
    ensures
        apply(m, ins, keys, rnd) matches Ok(m2) ==> m2.wf(),
{
    if let Instruction::Call { addr } = ins {
        if m.sp < 16 {
            let st = m.stack.update(m.sp, m.pc as u16);
            assert forall|i: int| 0 <= i < 16 implies #[trigger] st[i] < 4096 by {
                if i != m.sp {
                    assert(st[i] == m.stack[i]);
                }
            }
        }
    }
}

/// A cycle keeps a state well formed.
pub proof fn lemma_cycle_wf(m: Machine, keys: Seq<bool>, rnd: u8)
    requires
        m.wf(),
    ensures
        cycle_spec(m, keys, rnd) matches Ok((m2, t)) ==> m2.wf(),
{
    if m.pc < 4095 {
        if let Some(ins) = decode_spec(m.memory[m.pc], m.memory[m.pc + 1]) {
            crate::instruction::lemma_decode_wf(m.memory[m.pc], m.memory[m.pc + 1]);
            lemma_apply_wf(m.with_pc(advance(m.pc)), ins, keys, rnd);
        }
    }
}

} // verus!
