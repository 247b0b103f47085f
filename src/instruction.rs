//! Instruction words and their decoding.
use vstd::prelude::*;

verus! {

/// One decoded instruction. Register operands `x` and `y` and the row count
/// `n` are nibbles; `addr` is a 12-bit address; `kk` is an immediate byte.
#[derive(Clone, Copy, Debug, PartialEq, Eq, Structural)]
pub enum Instruction {
    Nop,
    Sys { addr: u16 },
    Clear,
    Return,
    Jump { addr: u16 },
    Call { addr: u16 },
    SkipEqImm { x: u8, kk: u8 },
    SkipNeImm { x: u8, kk: u8 },
    SkipEqReg { x: u8, y: u8 },
    LoadImm { x: u8, kk: u8 },
    AddImm { x: u8, kk: u8 },
    LoadReg { x: u8, y: u8 },
    Or { x: u8, y: u8 },
    And { x: u8, y: u8 },
    Xor { x: u8, y: u8 },
    AddCarry { x: u8, y: u8 },
    Sub { x: u8, y: u8 },
    ShiftRight { x: u8, y: u8 },
    SubN { x: u8, y: u8 },
    ShiftLeft { x: u8, y: u8 },
    SkipNeReg { x: u8, y: u8 },
    LoadIndex { addr: u16 },
    JumpV0 { addr: u16 },
    Random { x: u8, kk: u8 },
    Draw { x: u8, y: u8, n: u8 },
    SkipKey { x: u8 },
    SkipNoKey { x: u8 },
    LoadDelay { x: u8 },
    WaitKey { x: u8 },
    SetDelay { x: u8 },
    SetSound { x: u8 },
    AddIndex { x: u8 },
    LoadFont { x: u8 },
    StoreBcd { x: u8 },
    StoreRegs { x: u8 },
    LoadRegs { x: u8 },
}

impl Instruction {
    /// Every operand lies in the range its field of the word allows.
    pub open spec fn wf(self) -> bool {
        match self {
            Instruction::Sys { addr } | Instruction::Jump { addr } | Instruction::Call { addr }
            | Instruction::LoadIndex { addr } | Instruction::JumpV0 { addr } => addr < 4096,
            Instruction::SkipEqImm { x, .. } | Instruction::SkipNeImm { x, .. }
            | Instruction::LoadImm { x, .. } | Instruction::AddImm { x, .. }
            | Instruction::Random { x, .. } => x < 16,
            Instruction::SkipEqReg { x, y } | Instruction::LoadReg { x, y }
            | Instruction::Or { x, y } | Instruction::And { x, y } | Instruction::Xor { x, y }
            | Instruction::AddCarry { x, y } | Instruction::Sub { x, y }
            | Instruction::ShiftRight { x, y } | Instruction::SubN { x, y }
            | Instruction::ShiftLeft { x, y } | Instruction::SkipNeReg { x, y } => x < 16 && y
                < 16,
            Instruction::Draw { x, y, n } => x < 16 && y < 16 && n < 16,
            Instruction::SkipKey { x } | Instruction::SkipNoKey { x }
            | Instruction::LoadDelay { x } | Instruction::WaitKey { x }
            | Instruction::SetDelay { x } | Instruction::SetSound { x }
            | Instruction::AddIndex { x } | Instruction::LoadFont { x }
            | Instruction::StoreBcd { x } | Instruction::StoreRegs { x }
            | Instruction::LoadRegs { x } => x < 16,
            _ => true,
        }
    }

    /// Whether executing the instruction may change the frame buffer.
    pub open spec fn touches_display_spec(&self) -> bool {
        self is Clear || self is Draw
    }

    /// Whether executing the instruction may change the frame buffer.
    #[verifier::when_used_as_spec(touches_display_spec)]
    pub fn touches_display(&self) -> (r: bool)
        ensures
            r == self.touches_display_spec(),
    {
        match self {
            Instruction::Clear | Instruction::Draw { .. } => true,
            _ => false,
        }
    }
}

/// The instruction word made of a high and a low byte.
pub open spec fn word(hi: u8, lo: u8) -> u16 {
    (hi as int * 256 + lo as int) as u16
}

/// The decode table: the instruction that the word `hi lo` encodes, if any.
/// With nibbles `a b c d` of the word, `x = b`, `y = c`, `n = d`,
/// `kk = c d` and `addr = b c d`.
pub open spec fn decode_spec(hi: u8, lo: u8) -> Option<Instruction> {
    let a = hi / 16;
    let x = hi % 16;
    let y = lo / 16;
    let n = lo % 16;
    let kk = lo;
    let addr = (x as int * 256 + lo as int) as u16;
    if a == 0 {
        if hi == 0 && lo == 0 {
            Some(Instruction::Nop)
        } else if hi == 0 && lo == 0xE0 {
            Some(Instruction::Clear)
        } else if hi == 0 && lo == 0xEE {
            Some(Instruction::Return)
        } else {
            Some(Instruction::Sys { addr })
        }
    } else if a == 1 {
        Some(Instruction::Jump { addr })
    } else if a == 2 {
        Some(Instruction::Call { addr })
    } else if a == 3 {
        Some(Instruction::SkipEqImm { x, kk })
    } else if a == 4 {
        Some(Instruction::SkipNeImm { x, kk })
    } else if a == 5 {
        if n == 0 {
            Some(Instruction::SkipEqReg { x, y })
        } else {
            None
        }
    } else if a == 6 {
        Some(Instruction::LoadImm { x, kk })
    } else if a == 7 {
        Some(Instruction::AddImm { x, kk })
    } else if a == 8 {
        if n == 0 {
            Some(Instruction::LoadReg { x, y })
        } else if n == 1 {
            Some(Instruction::Or { x, y })
        } else if n == 2 {
            Some(Instruction::And { x, y })
        } else if n == 3 {
            Some(Instruction::Xor { x, y })
        } else if n == 4 {
            Some(Instruction::AddCarry { x, y })
        } else if n == 5 {
            Some(Instruction::Sub { x, y })
        } else if n == 6 {
            Some(Instruction::ShiftRight { x, y })
        } else if n == 7 {
            Some(Instruction::SubN { x, y })
        } else if n == 0xE {
            Some(Instruction::ShiftLeft { x, y })
        } else {
            None
        }
    } else if a == 9 {
        if n == 0 {
            Some(Instruction::SkipNeReg { x, y })
        } else {
            None
        }
    } else if a == 0xA {
        Some(Instruction::LoadIndex { addr })
    } else if a == 0xB {
        Some(Instruction::JumpV0 { addr })
    } else if a == 0xC {
        Some(Instruction::Random { x, kk })
    } else if a == 0xD {
        Some(Instruction::Draw { x, y, n })
    } else if a == 0xE {
        if kk == 0x9E {
            Some(Instruction::SkipKey { x })
        } else if kk == 0xA1 {
            Some(Instruction::SkipNoKey { x })
        } else {
            None
        }
    } else {
        if kk == 0x07 {
            Some(Instruction::LoadDelay { x })
        } else if kk == 0x0A {
            Some(Instruction::WaitKey { x })
        } else if kk == 0x15 {
            Some(Instruction::SetDelay { x })
        } else if kk == 0x18 {
            Some(Instruction::SetSound { x })
        } else if kk == 0x1E {
            Some(Instruction::AddIndex { x })
        } else if kk == 0x29 {
            Some(Instruction::LoadFont { x })
        } else if kk == 0x33 {
            Some(Instruction::StoreBcd { x })
        } else if kk == 0x55 {
            Some(Instruction::StoreRegs { x })
        } else if kk == 0x65 {
            Some(Instruction::LoadRegs { x })
        } else {
            None
        }
    }
}

/// Every instruction the table yields has its operands in range.
pub proof fn lemma_decode_wf(hi: u8, lo: u8)
    ensures
        decode_spec(hi, lo) matches Some(i) ==> i.wf(),
{
}

/// Decodes the instruction word made of bytes `hi` and `lo`; `None` where the
/// word matches no instruction.
pub fn decode(hi: u8, lo: u8) -> (r: Option<Instruction>)
    ensures
        r == decode_spec(hi, lo),
        r matches Some(i) ==> i.wf(),
{
    proof {
        lemma_decode_wf(hi, lo);
    }
    let a: u8 = hi / 16;
    let x: u8 = hi % 16;
    let y: u8 = lo / 16;
    let n: u8 = lo % 16;
    let kk: u8 = lo;
    let addr: u16 = (x as u16) * 256 + (lo as u16);
    match (a, x, y, n) {
        (0, 0, 0, 0) => Some(Instruction::Nop),
        (0, 0, 0xE, 0) => Some(Instruction::Clear),
        (0, 0, 0xE, 0xE) => Some(Instruction::Return),
        (0, _, _, _) => Some(Instruction::Sys { addr }),
        (1, _, _, _) => Some(Instruction::Jump { addr }),
        (2, _, _, _) => Some(Instruction::Call { addr }),
        (3, _, _, _) => Some(Instruction::SkipEqImm { x, kk }),
        (4, _, _, _) => Some(Instruction::SkipNeImm { x, kk }),
        (5, _, _, 0) => Some(Instruction::SkipEqReg { x, y }),
        (6, _, _, _) => Some(Instruction::LoadImm { x, kk }),
        (7, _, _, _) => Some(Instruction::AddImm { x, kk }),
        (8, _, _, 0) => Some(Instruction::LoadReg { x, y }),
        (8, _, _, 1) => Some(Instruction::Or { x, y }),
        (8, _, _, 2) => Some(Instruction::And { x, y }),
        (8, _, _, 3) => Some(Instruction::Xor { x, y }),
        (8, _, _, 4) => Some(Instruction::AddCarry { x, y }),
        (8, _, _, 5) => Some(Instruction::Sub { x, y }),
        (8, _, _, 6) => Some(Instruction::ShiftRight { x, y }),
        (8, _, _, 7) => Some(Instruction::SubN { x, y }),
        (8, _, _, 0xE) => Some(Instruction::ShiftLeft { x, y }),
        (9, _, _, 0) => Some(Instruction::SkipNeReg { x, y }),
        (0xA, _, _, _) => Some(Instruction::LoadIndex { addr }),
        (0xB, _, _, _) => Some(Instruction::JumpV0 { addr }),
        (0xC, _, _, _) => Some(Instruction::Random { x, kk }),
        (0xD, _, _, _) => Some(Instruction::Draw { x, y, n }),
        (0xE, _, 9, 0xE) => Some(Instruction::SkipKey { x }),
        (0xE, _, 0xA, 1) => Some(Instruction::SkipNoKey { x }),
        (0xF, _, 0, 7) => Some(Instruction::LoadDelay { x }),
        (0xF, _, 0, 0xA) => Some(Instruction::WaitKey { x }),
        (0xF, _, 1, 5) => Some(Instruction::SetDelay { x }),
        (0xF, _, 1, 8) => Some(Instruction::SetSound { x }),
        (0xF, _, 1, 0xE) => Some(Instruction::AddIndex { x }),
        (0xF, _, 2, 9) => Some(Instruction::LoadFont { x }),
        (0xF, _, 3, 3) => Some(Instruction::StoreBcd { x }),
        (0xF, _, 5, 5) => Some(Instruction::StoreRegs { x }),
        (0xF, _, 6, 5) => Some(Instruction::LoadRegs { x }),
        _ => None,
    }
}

} // verus!
