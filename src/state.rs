//! The executable machine: its state, the instruction handlers and the cycle.
use vstd::prelude::*;
use crate::font::{Sprite, FONT_BASE, glyph};
use crate::instruction::{Instruction, decode};
use crate::model::{advance, with_font, Machine, ExecError, PROGRAM_START, apply, cycle_spec, draw_spec, drawn, collides,
    sprite_covers, addr_wrap, first_held, first_held_from, key_held, stored_regs, loaded_regs,
    stored_bcd, font_byte, initial_machine, with_program, lemma_cycle_wf};

verus! {

/// The complete state of the virtual machine.
pub struct State {
    memory: [u8; 4096],
    registers: [u8; 16],
    pc: u16,
    index: u16,
    stack: [u16; 16],
    sp: u8,
    delay_timer: u8,
    sound_timer: u8,
    display: [bool; 2048],
    freq: u32,
}

impl View for State {
    type V = Machine;

    closed spec fn view(&self) -> Machine {
        Machine {
            memory: self.memory@,
            registers: self.registers@,
            pc: self.pc as int,
            index: self.index as int,
            stack: self.stack@,
            sp: self.sp as int,
            delay_timer: self.delay_timer,
            sound_timer: self.sound_timer,
            display: self.display@,
        }
    }
}

/// Pixel `p` has been visited once rows before `i`, and columns before `b` of
/// row `i`, of the sprite with origin `(ox, oy)` are done.
spec fn visited(p: int, ox: int, oy: int, i: int, b: int) -> bool {
    p / 64 - oy < i || (p / 64 - oy == i && p % 64 - ox < b)
}

spec fn partial_draw(
    d0: Seq<bool>,
    memory: Seq<u8>,
    index: int,
    n: int,
    ox: int,
    oy: int,
    i: int,
    b: int,
) -> Seq<bool> {
    Seq::new(
        2048,
        |p: int|
            if sprite_covers(memory, index, n, ox, oy, p % 64, p / 64) && visited(
                p,
                ox,
                oy,
                i,
                b,
            ) {
                !d0[p]
            } else {
                d0[p]
            },
    )
}

spec fn partial_hit(
    d0: Seq<bool>,
    memory: Seq<u8>,
    index: int,
    n: int,
    ox: int,
    oy: int,
    i: int,
    b: int,
) -> bool {
    exists|p: int|
        0 <= p < 2048 && #[trigger] d0[p] && sprite_covers(memory, index, n, ox, oy, p % 64, p / 64)
            && visited(p, ox, oy, i, b)
}

/// Relies on rand::random::<u8>: a byte drawn from the thread-local
/// generator. Nothing is assumed of its value.
#[verifier::external_body]
fn random_byte() -> (r: u8) {
    rand::random::<u8>()
}

/// `memory` with the first `c` bytes of the font written from `FONT_BASE` on.
spec fn font_upto(memory: Seq<u8>, c: int) -> Seq<u8> {
    Seq::new(
        4096,
        |a: int|
            if FONT_BASE <= a < FONT_BASE + c {
                font_byte(a)
            } else {
                memory[a]
            },
    )
}

impl State {
    /// A machine at start-up, with the font installed, that asks to be
    /// stepped `freq` times a second.
    pub fn new(freq: u32) -> (s: State)
        ensures
            s@ == initial_machine(),
            s@.wf(),
            s.frequency() == freq,
    {
        let mut s = State {
            memory: [0; 4096],
            registers: [0; 16],
            pc: 0x200,
            index: 0,
            stack: [0; 16],
            sp: 0,
            delay_timer: 0,
            sound_timer: 0,
            display: [false; 2048],
            freq,
        };
        s.initialise_sprites();
        assert(s.registers@ =~= Seq::new(16, |i: int| 0u8));
        assert(s.stack@ =~= Seq::new(16, |i: int| 0u16));
        assert(s.display@ =~= Seq::new(2048, |p: int| false));
        assert(s.memory@ =~= Seq::new(4096, |a: int| font_byte(a)));
        s
    }

    /// Writes the sixteen digit sprites into memory from `FONT_BASE` on.
    fn initialise_sprites(&mut self)
        ensures
            final(self)@ == (Machine { memory: with_font(old(self)@.memory), ..old(self)@ }),
            final(self).freq == old(self).freq,
    {
        let ghost m0 = self@;
        let mut i: u8 = 0;
        assert(self.memory@ =~= font_upto(m0.memory, 0));
        while i < 16
            invariant
                i <= 16,
                self@ == (Machine { memory: self.memory@, ..m0 }),
                self.freq == old(self).freq,
                self.memory@ == font_upto(m0.memory, 5 * i as int),
            decreases 16 - i,
        {
            let sprite = Sprite::new(i);
            let mut j: u8 = 0;
            while j < 5
                invariant
                    i < 16,
                    j <= 5,
                    sprite.hex@ == glyph(i),
                    self@ == (Machine { memory: self.memory@, ..m0 }),
                    self.freq == old(self).freq,
                    self.memory@ == font_upto(m0.memory, 5 * i + j),
                decreases 5 - j,
            {
                let a: usize = FONT_BASE as usize + 5 * (i as usize) + j as usize;
                self.memory[a] = sprite.hex[j as usize];
                assert((5 * i + j) / 5 == i as int && (5 * i + j) % 5 == j as int) by (nonlinear_arith)
                    requires
                        j < 5,
                ;
                assert(self.memory@ =~= font_upto(m0.memory, 5 * i + j + 1));
                j = j + 1;
            }
            i = i + 1;
        }
        assert(self.memory@ =~= with_font(m0.memory));
    }

    /// Executes one decoded instruction; the program counter already points
    /// past it. On failure nothing changes.
    fn execute(&mut self, ins: Instruction, keys: &[bool; 16], random: u8) -> (r: Result<(), ExecError>)
        requires
            old(self)@.wf(),
            ins.wf(),
        ensures
            final(self).freq == old(self).freq,
            match apply(old(self)@, ins, keys@, random) {
                Ok(m) => r is Ok && final(self)@ == m,
                Err(e) => r == Err::<(), ExecError>(e) && final(self)@ == old(self)@,
            },
    {
        match ins {
            Instruction::Nop => {
                self.nop();
                Ok(())
            },
            Instruction::Sys { addr } => {
                self.sys(addr);
                Ok(())
            },
            Instruction::Clear => {
                self.clear();
                Ok(())
            },
            Instruction::Return => self.ret(),
            Instruction::Jump { addr } => {
                self.jp(addr);
                Ok(())
            },
            Instruction::Call { addr } => self.call(addr),
            Instruction::SkipEqImm { x, kk } => {
                self.se(x, kk);
                Ok(())
            },
            Instruction::SkipNeImm { x, kk } => {
                self.sne(x, kk);
                Ok(())
            },
            Instruction::SkipEqReg { x, y } => {
                self.se_reg(x, y);
                Ok(())
            },
            Instruction::SkipNeReg { x, y } => {
                self.sne_reg(x, y);
                Ok(())
            },
            Instruction::LoadImm { x, kk } => {
                self.ld(x, kk);
                Ok(())
            },
            Instruction::AddImm { x, kk } => {
                self.add(x, kk);
                Ok(())
            },
            Instruction::LoadReg { x, y } => {
                let v: u8 = self.registers[y as usize];
                self.ld(x, v);
                Ok(())
            },
            Instruction::Or { x, y } => {
                self.or(x, y);
                Ok(())
            },
            Instruction::And { x, y } => {
                self.and(x, y);
                Ok(())
            },
            Instruction::Xor { x, y } => {
                self.xor(x, y);
                Ok(())
            },
            Instruction::AddCarry { x, y } => {
                self.add_carry(x, y);
                Ok(())
            },
            Instruction::Sub { x, y } => {
                self.sub(x, y);
                Ok(())
            },
            Instruction::SubN { x, y } => {
                self.subn(x, y);
                Ok(())
            },
            Instruction::ShiftRight { x, y } => {
                self.shr(x, y);
                Ok(())
            },
            Instruction::ShiftLeft { x, y } => {
                self.shl(x, y);
                Ok(())
            },
            Instruction::LoadIndex { addr } => {
                self.ld_index(addr);
                Ok(())
            },
            Instruction::JumpV0 { addr } => {
                self.jp_v0(addr);
                Ok(())
            },
            Instruction::Random { x, kk } => {
                self.rnd(x, kk, random);
                Ok(())
            },
            Instruction::Draw { x, y, n } => {
                self.drw(x, y, n);
                Ok(())
            },
            Instruction::SkipKey { x } => {
                self.skp(x, keys);
                Ok(())
            },
            Instruction::SkipNoKey { x } => {
                self.sknp(x, keys);
                Ok(())
            },
            Instruction::LoadDelay { x } => {
                self.ld_vx_dt(x);
                Ok(())
            },
            Instruction::WaitKey { x } => {
                self.ld_k(x, keys);
                Ok(())
            },
            Instruction::SetDelay { x } => {
                self.ld_dt_vx(x);
                Ok(())
            },
            Instruction::SetSound { x } => {
                self.ld_st_vx(x);
                Ok(())
            },
            Instruction::AddIndex { x } => {
                self.add_index(x);
                Ok(())
            },
            Instruction::LoadFont { x } => {
                self.ld_f(x);
                Ok(())
            },
            Instruction::StoreBcd { x } => {
                self.ld_b(x);
                Ok(())
            },
            Instruction::StoreRegs { x } => {
                self.ld_i_vx(x);
                Ok(())
            },
            Instruction::LoadRegs { x } => {
                self.ld_vx_i(x);
                Ok(())
            },
        }
    }

    /// Performs one fetch-decode-execute cycle with the held `keys`, where
    /// `random` is the byte a random-number instruction uses. Returns whether
    /// the frame buffer was touched. A key-wait with no key held changes
    /// nothing, so the next cycle runs it again.
    pub fn cycle(&mut self, keys: &[bool; 16], random: u8) -> (r: Result<bool, ExecError>)
        requires
            old(self)@.wf(),
        ensures
            final(self)@.wf(),
            final(self).frequency() == old(self).frequency(),
            match cycle_spec(old(self)@, keys@, random) {
                Ok((m, t)) => r == Ok::<bool, ExecError>(t) && final(self)@ == m,
                Err(e) => r == Err::<bool, ExecError>(e) && final(self)@ == old(self)@,
            },
    {
        proof {
            lemma_cycle_wf(self@, keys@, random);
        }
        if self.pc >= 4095 {
            self.pc = 0x200;
            return Ok(false);
        }
        let hi: u8 = self.memory[self.pc as usize];
        let lo: u8 = self.memory[self.pc as usize + 1];
        match decode(hi, lo) {
            None => Err(ExecError::InvalidOpcode { word: (hi as u16) * 256 + lo as u16 }),
            Some(ins) => {
                if let Instruction::WaitKey { .. } = ins {
                    if lowest_held(keys).is_none() {
                        return Ok(false);
                    }
                }
                let saved: u16 = self.pc;
                self.pc = next_pc(self.pc);
                match self.execute(ins, keys, random) {
                    Ok(()) => Ok(ins.touches_display()),
                    Err(e) => {
                        self.pc = saved;
                        Err(e)
                    },
                }
            },
        }
    }

    /// Performs one cycle with the held `keys`, drawing the random byte from
    /// the thread-local generator. Returns the frame buffer where the cycle
    /// touched it and `None` where it is unchanged.
    pub fn step(&mut self, keys: &[bool; 16]) -> (r: Result<Option<[bool; 2048]>, ExecError>)
        requires
            old(self)@.wf(),
        ensures
            final(self)@.wf(),
            final(self).frequency() == old(self).frequency(),
            exists|random: u8|
                match #[trigger] cycle_spec(old(self)@, keys@, random) {
                    Ok((m, t)) => final(self)@ == m && r is Ok && (r->Ok_0 is Some) == t && (t
                        ==> r->Ok_0->Some_0@ == m.display),
                    Err(e) => r == Err::<Option<[bool; 2048]>, ExecError>(e) && final(self)@
                        == old(self)@,
                },
    {
        let random: u8 = random_byte();
        let ghost m0 = self@;
        let res = self.cycle(keys, random);
        let r = match res {
            Ok(true) => Ok(Some(self.display)),
            Ok(false) => Ok(None),
            Err(e) => Err(e),
        };
        assert(match cycle_spec(m0, keys@, random) {
            Ok((m, t)) => self@ == m && r is Ok && (r->Ok_0 is Some) == t && (t ==> r->Ok_0->Some_0@
                == m.display),
            Err(e) => r == Err::<Option<[bool; 2048]>, ExecError>(e) && self@ == m0,
        });
        r
    }

    /// The configured number of cycles per second.
    pub closed spec fn frequency(&self) -> u32 {
        self.freq
    }

    /// Copies `program` into memory from the program start on. Returns
    /// `false`, changing nothing, where it does not fit below the top of
    /// memory.
    pub fn load_program(&mut self, program: &[u8]) -> (ok: bool)
        requires
            old(self)@.wf(),
        ensures
            final(self).frequency() == old(self).frequency(),
            final(self)@.wf(),
            ok == (program@.len() <= 4096 - PROGRAM_START),
            ok ==> final(self)@ == (Machine {
                memory: with_program(old(self)@.memory, program@),
                ..old(self)@
            }),
            !ok ==> final(self)@ == old(self)@,
    {
        if program.len() > 4096 - 0x200 {
            return false;
        }
        let ghost m0 = self@;
        let mut k: usize = 0;
        while k < program.len()
            invariant
                m0.wf(),
                program@.len() <= 4096 - PROGRAM_START,
                k <= program@.len(),
                self@ == (Machine { memory: self.memory@, ..m0 }),
                self.freq == old(self).freq,
                self.memory@ == with_program(m0.memory, program@.subrange(0, k as int)),
            decreases program@.len() - k,
        {
            self.memory[0x200 + k] = program[k];
            assert(self.memory@ =~= with_program(m0.memory, program@.subrange(0, k + 1)));
            k = k + 1;
        }
        assert(program@.subrange(0, k as int) =~= program@);
        true
    }

    /// Counts both timers down by one, stopping at zero; the host calls this
    /// sixty times a second.
    pub fn tick_timers(&mut self)
        ensures
            final(self).frequency() == old(self).frequency(),
            final(self)@ == (Machine {
                delay_timer: if old(self)@.delay_timer > 0 { (old(self)@.delay_timer - 1) as u8 } else { 0 },
                sound_timer: if old(self)@.sound_timer > 0 { (old(self)@.sound_timer - 1) as u8 } else { 0 },
                ..old(self)@
            }),
    {
        if self.delay_timer > 0 {
            self.delay_timer = self.delay_timer - 1;
        }
        if self.sound_timer > 0 {
            self.sound_timer = self.sound_timer - 1;
        }
    }

    /// The time between two cycles in nanoseconds: one second divided by the
    /// frequency, or the largest value where the frequency is zero.
    pub fn period_nanos(&self) -> (r: u64)
        ensures
            self.frequency() > 0 ==> r == 1_000_000_000int / (self.frequency() as int),
            self.frequency() == 0 ==> r == u64::MAX,
    {
        if self.freq == 0 {
            u64::MAX
        } else {
            1_000_000_000u64 / (self.freq as u64)
        }
    }

    /// Whether the buzzer sounds: the sound timer is not zero.
    pub fn buzzer_active(&self) -> (r: bool)
        ensures
            r == (self@.sound_timer != 0),
    {
        self.sound_timer != 0
    }

    /// The configured number of cycles per second.
    pub fn freq(&self) -> (r: u32)
        ensures
            r == self.frequency(),
    {
        self.freq
    }

    /// The program counter.
    pub fn pc(&self) -> (r: u16)
        ensures
            r == self@.pc,
    {
        self.pc
    }

    /// The index register.
    pub fn index(&self) -> (r: u16)
        ensures
            r == self@.index,
    {
        self.index
    }

    /// The number of return addresses on the stack.
    pub fn stack_pointer(&self) -> (r: u8)
        ensures
            r == self@.sp,
    {
        self.sp
    }

    /// General-purpose register `x`.
    pub fn register(&self, x: u8) -> (r: u8)
        requires
            x < 16,
        ensures
            r == self@.reg(x),
    {
        self.registers[x as usize]
    }

    /// The byte at memory address `a`.
    pub fn memory_at(&self, a: u16) -> (r: u8)
        requires
            a < 4096,
        ensures
            r == self@.memory[a as int],
    {
        self.memory[a as usize]
    }

    /// Whether the pixel in column `x` and row `y` is on.
    pub fn pixel(&self, x: u8, y: u8) -> (r: bool)
        requires
            x < 64,
            y < 32,
        ensures
            r == self@.pixel(x as int, y as int),
    {
        self.display[y as usize * 64 + x as usize]
    }

    /// The frame buffer, row-major.
    pub fn display(&self) -> (r: [bool; 2048])
        ensures
            r@ == self@.display,
    {
        self.display
    }

    /// The delay timer.
    pub fn delay_timer(&self) -> (r: u8)
        ensures
            r == self@.delay_timer,
    {
        self.delay_timer
    }

    /// The sound timer.
    pub fn sound_timer(&self) -> (r: u8)
        ensures
            r == self@.sound_timer,
    {
        self.sound_timer
    }


    /// Draws the `n`-row sprite at the index register with origin
    /// `(V[x] mod 64, V[y] mod 32)`, clipping at the edges, and sets the flag
    /// register to whether a pixel was turned off.
    #[verifier::rlimit(40)]
    fn drw(&mut self, x: u8, y: u8, n: u8)
        requires
            old(self)@.wf(),
            x < 16,
            y < 16,
            n < 16,
        ensures
            final(self).freq == old(self).freq,
            final(self)@ == draw_spec(old(self)@, x, y, n),
    {
        let ox: u8 = self.registers[x as usize] % 64;
        let oy: u8 = self.registers[y as usize] % 32;
        let ghost m0 = self@;
        let ghost d0 = self.display@;
        let ghost mem = self.memory@;
        let ghost idx = self.index as int;
        let mut hit: bool = false;
        let mut i: u8 = 0;
        assert(self.display@ =~= partial_draw(d0, mem, idx, n as int, ox as int, oy as int, 0, 0));
        while i < n && oy + i < 32
            invariant
                m0.wf(),
                i <= n < 16,
                ox < 64,
                oy < 32,
                oy + i <= 32,
                ox == m0.reg(x) % 64,
                oy == m0.reg(y) % 32,
                self@ == (Machine { display: self.display@, ..m0 }),
                self.freq == old(self).freq,
                d0 == m0.display,
                mem == m0.memory,
                idx == m0.index,
                self.display@ == partial_draw(d0, mem, idx, n as int, ox as int, oy as int, i as int, 0),
                hit == partial_hit(d0, mem, idx, n as int, ox as int, oy as int, i as int, 0),
            decreases n - i,
        {
            let row: u8 = self.memory[(self.index as usize + i as usize) % 4096];
            let mut b: u8 = 0;
            while b < 8 && ox + b < 64
                invariant
                    m0.wf(),
                    i < n < 16,
                    b <= 8,
                    ox < 64,
                    oy < 32,
                    oy + i < 32,
                    ox + b <= 64,
                    ox == m0.reg(x) % 64,
                    oy == m0.reg(y) % 32,
                    row == mem[addr_wrap(idx, i as int)],
                    self@ == (Machine { display: self.display@, ..m0 }),
                    self.freq == old(self).freq,
                    d0 == m0.display,
                    mem == m0.memory,
                    idx == m0.index,
                    self.display@ == partial_draw(d0, mem, idx, n as int, ox as int, oy as int, i as int, b as int),
                    hit == partial_hit(d0, mem, idx, n as int, ox as int, oy as int, i as int, b as int),
                decreases 8 - b,
            {
                let p: usize = (oy + i) as usize * 64 + (ox + b) as usize;
                let ghost k = p as int;
                assert(k / 64 == (oy + i) as int && k % 64 == (ox + b) as int) by (nonlinear_arith)
                    requires
                        k == (oy + i) as int * 64 + (ox + b) as int,
                        ox + b < 64,
                ;
                let ghost old_disp = self.display@;
                let ghost old_hit = hit;
                if (row >> (7 - b)) & 1 == 1 {
                    assert(sprite_covers(mem, idx, n as int, ox as int, oy as int, k % 64, k / 64));
                    if self.display[p] {
                        hit = true;
                    }
                    self.display[p] = !self.display[p];
                } else {
                    assert(!sprite_covers(mem, idx, n as int, ox as int, oy as int, k % 64, k / 64));
                }
                assert forall|q: int| 0 <= q < 2048 && q != k implies
                    visited(q, ox as int, oy as int, i as int, b + 1) == visited(q, ox as int, oy as int, i as int, b as int)
                by {
                    if q / 64 == k / 64 && q % 64 == k % 64 {
                        assert(q == k);
                    }
                }
                assert(self.display@ =~= partial_draw(d0, mem, idx, n as int, ox as int, oy as int, i as int, b + 1));
                let ghost cov = sprite_covers(mem, idx, n as int, ox as int, oy as int, k % 64, k / 64);
                assert(hit == partial_hit(d0, mem, idx, n as int, ox as int, oy as int, i as int, b + 1)) by {
                    if partial_hit(d0, mem, idx, n as int, ox as int, oy as int, i as int, b + 1) {
                        let q = choose|q: int|
                            0 <= q < 2048 && #[trigger] d0[q] && sprite_covers(mem, idx, n as int, ox as int, oy as int, q % 64, q / 64)
                                && visited(q, ox as int, oy as int, i as int, b + 1);
                        if q != k {
                            assert(visited(q, ox as int, oy as int, i as int, b as int));
                        }
                    }
                    if old_hit {
                        let q = choose|q: int|
                            0 <= q < 2048 && #[trigger] d0[q] && sprite_covers(mem, idx, n as int, ox as int, oy as int, q % 64, q / 64)
                                && visited(q, ox as int, oy as int, i as int, b as int);
                        assert(visited(q, ox as int, oy as int, i as int, b + 1));
                    }
                    if cov && d0[k] {
                        assert(visited(k, ox as int, oy as int, i as int, b + 1));
                    }
                }
                b = b + 1;
            }
            assert forall|q: int| 0 <= q < 2048 && sprite_covers(mem, idx, n as int, ox as int, oy as int, q % 64, q / 64) implies
                visited(q, ox as int, oy as int, i + 1, 0) == visited(q, ox as int, oy as int, i as int, b as int)
            by {}
            assert(self.display@ =~= partial_draw(d0, mem, idx, n as int, ox as int, oy as int, i + 1, 0));
            assert(hit == partial_hit(d0, mem, idx, n as int, ox as int, oy as int, i + 1, 0)) by {
                if hit {
                    let q = choose|q: int|
                        0 <= q < 2048 && #[trigger] d0[q] && sprite_covers(mem, idx, n as int, ox as int, oy as int, q % 64, q / 64)
                            && visited(q, ox as int, oy as int, i as int, b as int);
                    assert(visited(q, ox as int, oy as int, i + 1, 0));
                }
                if partial_hit(d0, mem, idx, n as int, ox as int, oy as int, i + 1, 0) {
                    let q = choose|q: int|
                        0 <= q < 2048 && #[trigger] d0[q] && sprite_covers(mem, idx, n as int, ox as int, oy as int, q % 64, q / 64)
                            && visited(q, ox as int, oy as int, i + 1, 0);
                    assert(visited(q, ox as int, oy as int, i as int, b as int));
                }
            }
            i = i + 1;
        }
        assert forall|q: int| 0 <= q < 2048 && sprite_covers(mem, idx, n as int, ox as int, oy as int, q % 64, q / 64) implies
            visited(q, ox as int, oy as int, i as int, 0)
        by {}
        assert(self.display@ =~= drawn(d0, mem, idx, n as int, ox as int, oy as int));
        assert(hit == collides(d0, mem, idx, n as int, ox as int, oy as int)) by {
            if hit {
                let q = choose|q: int|
                    0 <= q < 2048 && #[trigger] d0[q] && sprite_covers(mem, idx, n as int, ox as int, oy as int, q % 64, q / 64)
                        && visited(q, ox as int, oy as int, i as int, 0);
            }
            if collides(d0, mem, idx, n as int, ox as int, oy as int) {
                let q = choose|q: int|
                    0 <= q < 2048 && #[trigger] d0[q] && sprite_covers(mem, idx, n as int, ox as int, oy as int, q % 64, q / 64);
                assert(visited(q, ox as int, oy as int, i as int, 0));
            }
        }
        self.registers[15] = if hit { 1 } else { 0 };
    }

    fn nop(&mut self)
        ensures
            final(self).freq == old(self).freq,
            final(self)@ == old(self)@,
    {
    }

    fn sys(&mut self, nnn: u16)
        ensures
            final(self).freq == old(self).freq,
            final(self)@ == old(self)@.with_pc(nnn as int),
    {
        self.pc = nnn;
    }

    fn clear(&mut self)
        ensures
            final(self).freq == old(self).freq,
            final(self)@ == (Machine { display: Seq::new(2048, |p: int| false), ..old(self)@ }),
    {
        self.display = [false; 2048];
        assert(self.display@ =~= Seq::new(2048, |p: int| false));
    }

    fn ret(&mut self) -> (r: Result<(), ExecError>)
        requires
            old(self)@.wf(),
        ensures
            final(self).freq == old(self).freq,
            apply(old(self)@, Instruction::Return, Seq::empty(), 0) == (match r {
                Ok(()) => Ok(final(self)@),
                Err(e) => Err(e),
            }),
            r is Err ==> final(self)@ == old(self)@,
    {
        if self.sp == 0 {
            return Err(ExecError::StackUnderflow);
        }
        self.sp = self.sp - 1;
        self.pc = self.stack[self.sp as usize];
        Ok(())
    }

    fn jp(&mut self, nnn: u16)
        ensures
            final(self).freq == old(self).freq,
            final(self)@ == old(self)@.with_pc(nnn as int),
    {
        self.pc = nnn;
    }

    fn call(&mut self, nnn: u16) -> (r: Result<(), ExecError>)
        requires
            old(self)@.wf(),
        ensures
            final(self).freq == old(self).freq,
            apply(old(self)@, Instruction::Call { addr: nnn }, Seq::empty(), 0) == (match r {
                Ok(()) => Ok(final(self)@),
                Err(e) => Err(e),
            }),
            r is Err ==> final(self)@ == old(self)@,
    {
        if self.sp >= 16 {
            return Err(ExecError::StackOverflow);
        }
        self.stack[self.sp as usize] = self.pc;
        self.sp = self.sp + 1;
        self.pc = nnn;
        Ok(())
    }

    fn se(&mut self, x: u8, kk: u8)
        requires
            old(self)@.wf(),
            x < 16,
        ensures
            final(self).freq == old(self).freq,
            final(self)@ == old(self)@.skip_if(old(self)@.reg(x) == kk),
    {
        if self.registers[x as usize] == kk {
            self.pc = next_pc(self.pc);
        }
    }

    fn sne(&mut self, x: u8, kk: u8)
        requires
            old(self)@.wf(),
            x < 16,
        ensures
            final(self).freq == old(self).freq,
            final(self)@ == old(self)@.skip_if(old(self)@.reg(x) != kk),
    {
        if self.registers[x as usize] != kk {
            self.pc = next_pc(self.pc);
        }
    }

    fn se_reg(&mut self, x: u8, y: u8)
        requires
            old(self)@.wf(),
            x < 16,
            y < 16,
        ensures
            final(self).freq == old(self).freq,
            final(self)@ == old(self)@.skip_if(old(self)@.reg(x) == old(self)@.reg(y)),
    {
        if self.registers[x as usize] == self.registers[y as usize] {
            self.pc = next_pc(self.pc);
        }
    }

    fn sne_reg(&mut self, x: u8, y: u8)
        requires
            old(self)@.wf(),
            x < 16,
            y < 16,
        ensures
            final(self).freq == old(self).freq,
            final(self)@ == old(self)@.skip_if(old(self)@.reg(x) != old(self)@.reg(y)),
    {
        if self.registers[x as usize] != self.registers[y as usize] {
            self.pc = next_pc(self.pc);
        }
    }

    fn ld(&mut self, x: u8, kk: u8)
        requires
            x < 16,
        ensures
            final(self).freq == old(self).freq,
            final(self)@ == old(self)@.with_reg(x, kk),
    {
        self.registers[x as usize] = kk;
    }

    fn add(&mut self, x: u8, kk: u8)
        requires
            x < 16,
        ensures
            final(self).freq == old(self).freq,
            final(self)@ == old(self)@.with_reg(x, ((old(self)@.reg(x) + kk) % 256) as u8),
    {
        self.registers[x as usize] = self.registers[x as usize].wrapping_add(kk);
    }

    fn or(&mut self, x: u8, y: u8)
        requires
            x < 16,
            y < 16,
        ensures
            final(self).freq == old(self).freq,
            final(self)@ == old(self)@.with_reg(x, old(self)@.reg(x) | old(self)@.reg(y)),
    {
        self.registers[x as usize] = self.registers[x as usize] | self.registers[y as usize];
    }

    fn and(&mut self, x: u8, y: u8)
        requires
            x < 16,
            y < 16,
        ensures
            final(self).freq == old(self).freq,
            final(self)@ == old(self)@.with_reg(x, old(self)@.reg(x) & old(self)@.reg(y)),
    {
        self.registers[x as usize] = self.registers[x as usize] & self.registers[y as usize];
    }

    fn xor(&mut self, x: u8, y: u8)
        requires
            x < 16,
            y < 16,
        ensures
            final(self).freq == old(self).freq,
            final(self)@ == old(self)@.with_reg(x, old(self)@.reg(x) ^ old(self)@.reg(y)),
    {
        self.registers[x as usize] = self.registers[x as usize] ^ self.registers[y as usize];
    }

    fn add_carry(&mut self, x: u8, y: u8)
        requires
            x < 16,
            y < 16,
        ensures
            final(self).freq == old(self).freq,
            ({
                let sum = old(self)@.reg(x) + old(self)@.reg(y);
                final(self)@ == old(self)@.with_flag_reg(
                    if sum > 255 { 1 } else { 0 },
                    x,
                    (sum % 256) as u8,
                )
            }),
    {
        let sum: u16 = (self.registers[x as usize] as u16) + (self.registers[y as usize] as u16);
        self.registers[15] = if sum > 255 { 1 } else { 0 };
        self.registers[x as usize] = (sum % 256) as u8;
    }

    fn sub(&mut self, x: u8, y: u8)
        requires
            x < 16,
            y < 16,
        ensures
            final(self).freq == old(self).freq,
            final(self)@ == old(self)@.with_flag_reg(
                if old(self)@.reg(x) > old(self)@.reg(y) { 1 } else { 0 },
                x,
                ((old(self)@.reg(x) - old(self)@.reg(y) + 256) % 256) as u8,
            ),
    {
        let vx: u8 = self.registers[x as usize];
        let vy: u8 = self.registers[y as usize];
        self.registers[15] = if vx > vy { 1 } else { 0 };
        self.registers[x as usize] = vx.wrapping_sub(vy);
    }

    fn subn(&mut self, x: u8, y: u8)
        requires
            x < 16,
            y < 16,
        ensures
            final(self).freq == old(self).freq,
            final(self)@ == old(self)@.with_flag_reg(
                if old(self)@.reg(y) > old(self)@.reg(x) { 1 } else { 0 },
                x,
                ((old(self)@.reg(y) - old(self)@.reg(x) + 256) % 256) as u8,
            ),
    {
        let vx: u8 = self.registers[x as usize];
        let vy: u8 = self.registers[y as usize];
        self.registers[15] = if vy > vx { 1 } else { 0 };
        self.registers[x as usize] = vy.wrapping_sub(vx);
    }

    fn shr(&mut self, x: u8, y: u8)
        requires
            x < 16,
        ensures
            final(self).freq == old(self).freq,
            final(self)@ == old(self)@.with_flag_reg(old(self)@.reg(x) % 2, x, old(self)@.reg(x) / 2),
    {
        let vx: u8 = self.registers[x as usize];
        self.registers[15] = vx % 2;
        self.registers[x as usize] = vx / 2;
    }

    fn shl(&mut self, x: u8, y: u8)
        requires
            x < 16,
        ensures
            final(self).freq == old(self).freq,
            final(self)@ == old(self)@.with_flag_reg(
                old(self)@.reg(x) / 128,
                x,
                ((old(self)@.reg(x) * 2) % 256) as u8,
            ),
    {
        let vx: u8 = self.registers[x as usize];
        self.registers[15] = vx / 128;
        self.registers[x as usize] = ((vx as u16 * 2) % 256) as u8;
    }

    fn ld_index(&mut self, nnn: u16)
        ensures
            final(self).freq == old(self).freq,
            final(self)@ == (Machine { index: nnn as int, ..old(self)@ }),
    {
        self.index = nnn;
    }

    fn jp_v0(&mut self, nnn: u16)
        requires
            nnn < 4096,
        ensures
            final(self).freq == old(self).freq,
            final(self)@ == old(self)@.with_pc(addr_wrap(old(self)@.reg(0) as int, nnn as int)),
    {
        self.pc = (self.registers[0] as u16 + nnn) % 4096;
    }

    fn rnd(&mut self, x: u8, kk: u8, random: u8)
        requires
            x < 16,
        ensures
            final(self).freq == old(self).freq,
            final(self)@ == old(self)@.with_reg(x, random & kk),
    {
        self.registers[x as usize] = random & kk;
    }

    fn skp(&mut self, x: u8, keys: &[bool; 16])
        requires
            old(self)@.wf(),
            x < 16,
        ensures
            final(self).freq == old(self).freq,
            final(self)@ == old(self)@.skip_if(key_held(keys@, old(self)@.reg(x))),
    {
        let k: u8 = self.registers[x as usize];
        if k < 16 && keys[k as usize] {
            self.pc = next_pc(self.pc);
        }
    }

    fn sknp(&mut self, x: u8, keys: &[bool; 16])
        requires
            old(self)@.wf(),
            x < 16,
        ensures
            final(self).freq == old(self).freq,
            final(self)@ == old(self)@.skip_if(!key_held(keys@, old(self)@.reg(x))),
    {
        let k: u8 = self.registers[x as usize];
        if !(k < 16 && keys[k as usize]) {
            self.pc = next_pc(self.pc);
        }
    }

    fn ld_vx_dt(&mut self, x: u8)
        requires
            x < 16,
        ensures
            final(self).freq == old(self).freq,
            final(self)@ == old(self)@.with_reg(x, old(self)@.delay_timer),
    {
        self.registers[x as usize] = self.delay_timer;
    }

    fn ld_k(&mut self, x: u8, keys: &[bool; 16])
        requires
            x < 16,
        ensures
            final(self).freq == old(self).freq,
            final(self)@ == (match first_held(keys@) {
                Some(k) => old(self)@.with_reg(x, k),
                None => old(self)@,
            }),
    {
        match lowest_held(keys) {
            Some(k) => {
                self.registers[x as usize] = k;
            },
            None => {},
        }
    }

    fn ld_dt_vx(&mut self, x: u8)
        requires
            x < 16,
        ensures
            final(self).freq == old(self).freq,
            final(self)@ == (Machine { delay_timer: old(self)@.reg(x), ..old(self)@ }),
    {
        self.delay_timer = self.registers[x as usize];
    }

    fn ld_st_vx(&mut self, x: u8)
        requires
            x < 16,
        ensures
            final(self).freq == old(self).freq,
            final(self)@ == (Machine { sound_timer: old(self)@.reg(x), ..old(self)@ }),
    {
        self.sound_timer = self.registers[x as usize];
    }

    fn add_index(&mut self, x: u8)
        requires
            old(self)@.wf(),
            x < 16,
        ensures
            final(self).freq == old(self).freq,
            final(self)@ == (Machine {
                index: addr_wrap(old(self)@.index, old(self)@.reg(x) as int),
                ..old(self)@
            }),
    {
        self.index = (self.index + self.registers[x as usize] as u16) % 4096;
    }

    fn ld_f(&mut self, x: u8)
        requires
            x < 16,
        ensures
            final(self).freq == old(self).freq,
            final(self)@ == (Machine {
                index: FONT_BASE + 5 * (old(self)@.reg(x) % 16),
                ..old(self)@
            }),
    {
        self.index = FONT_BASE + 5 * ((self.registers[x as usize] % 16) as u16);
    }

    fn ld_b(&mut self, x: u8)
        requires
            old(self)@.wf(),
            x < 16,
        ensures
            final(self).freq == old(self).freq,
            final(self)@ == (Machine { memory: stored_bcd(old(self)@, old(self)@.reg(x)), ..old(self)@ }),
    {
        let v: u8 = self.registers[x as usize];
        let i: usize = self.index as usize;
        self.memory[i % 4096] = v / 100;
        self.memory[(i + 1) % 4096] = (v / 10) % 10;
        self.memory[(i + 2) % 4096] = v % 10;
    }

    fn ld_i_vx(&mut self, x: u8)
        requires
            old(self)@.wf(),
            x < 16,
        ensures
            final(self).freq == old(self).freq,
            final(self)@ == (Machine { memory: stored_regs(old(self)@, x), ..old(self)@ }),
    {
        let ghost m0 = self@;
        let i0: usize = self.index as usize;
        let mut k: u8 = 0;
        while k <= x
            invariant
                m0.wf(),
                x < 16,
                k <= x + 1,
                i0 == m0.index,
                self@ == (Machine { memory: self.memory@, ..m0 }),
                self.freq == old(self).freq,
                forall|a: int|
                    0 <= a < 4096 ==> #[trigger] self.memory@[a] == if (a - m0.index + 4096) % 4096
                        < k as int {
                        m0.registers[(a - m0.index + 4096) % 4096]
                    } else {
                        m0.memory[a]
                    },
            decreases x + 1 - k,
        {
            self.memory[(i0 + k as usize) % 4096] = self.registers[k as usize];
            k = k + 1;
        }
        assert(self.memory@ =~= stored_regs(m0, x));
    }

    fn ld_vx_i(&mut self, x: u8)
        requires
            old(self)@.wf(),
            x < 16,
        ensures
            final(self).freq == old(self).freq,
            final(self)@ == (Machine { registers: loaded_regs(old(self)@, x), ..old(self)@ }),
    {
        let ghost m0 = self@;
        let i0: usize = self.index as usize;
        let mut k: u8 = 0;
        while k <= x
            invariant
                m0.wf(),
                x < 16,
                k <= x + 1,
                i0 == m0.index,
                self@ == (Machine { registers: self.registers@, ..m0 }),
                self.freq == old(self).freq,
                forall|j: int|
                    0 <= j < 16 ==> #[trigger] self.registers@[j] == if j < k as int {
                        m0.memory[addr_wrap(m0.index, j)]
                    } else {
                        m0.registers[j]
                    },
            decreases x + 1 - k,
        {
            self.registers[k as usize] = self.memory[(i0 + k as usize) % 4096];
            k = k + 1;
        }
        assert(self.registers@ =~= loaded_regs(m0, x));
    }
}

/// The address of the instruction after the one at `pc`.
fn next_pc(pc: u16) -> (r: u16)
    requires
        pc < 4096,
    ensures
        r == advance(pc as int),
{
    if pc + 2 < 4096 {
        pc + 2
    } else {
        0x200
    }
}

/// The lowest-numbered held key, if any.
pub fn lowest_held(keys: &[bool; 16]) -> (r: Option<u8>)
    ensures
        r == first_held(keys@),
{
    let mut i: u8 = 0;
    while i < 16
        invariant
            i <= 16,
            first_held(keys@) == first_held_from(keys@, i as int),
        decreases 16 - i,
    {
        if keys[i as usize] {
            return Some(i);
        }
        i = i + 1;
    }
    None
}

} // verus!
