use vstd::prelude::*;

verus! {

/// A decoded instruction. `x` and `y` name registers, `nn` is an 8-bit
/// immediate, `addr` a 12-bit address and `n` a 4-bit row count.
#[derive(Debug, Clone, Copy, PartialEq, Eq, Structural)]
pub enum Instruction {
    /// `00E0`
    ClearScreen,
    /// `00EE`
    Return,
    /// `00FF`: accepted and ignored.
    HighResolution,
    /// `1NNN`
    Jump { addr: u16 },
    /// `2NNN`
    Call { addr: u16 },
    /// `3XNN`
    SkipIfEqualByte { x: usize, nn: u8 },
    /// `4XNN`
    SkipIfNotEqualByte { x: usize, nn: u8 },
    /// `5XY0`
    SkipIfEqualReg { x: usize, y: usize },
    /// `6XNN`
    SetByte { x: usize, nn: u8 },
    /// `7XNN`
    AddByte { x: usize, nn: u8 },
    /// `8XYK`, where `kind` is the low nibble `K`.
    Arith { x: usize, y: usize, kind: u8 },
    /// `9XY0`
    SkipIfNotEqualReg { x: usize, y: usize },
    /// `ANNN`
    SetIndex { addr: u16 },
    /// `BNNN`
    JumpOffset { addr: u16 },
    /// `CXNN`
    Random { x: usize, nn: u8 },
    /// `DXYN`
    Draw { x: usize, y: usize, n: u8 },
    /// `EX9E`
    SkipIfKeyPressed { x: usize },
    /// `EXA1`
    SkipIfKeyNotPressed { x: usize },
    /// `FX07`
    ReadDelay { x: usize },
    /// `FX0A`
    WaitKey { x: usize },
    /// `FX15`
    SetDelay { x: usize },
    /// `FX18`
    SetSound { x: usize },
    /// `FX1E`
    AddIndex { x: usize },
    /// `FX29`
    FontChar { x: usize },
    /// `FX33`
    StoreBcd { x: usize },
    /// `FX55`
    StoreRegs { x: usize },
    /// `FX65`
    LoadRegs { x: usize },
}

/// The low nibbles that name an `8XY_` register operation.
pub open spec fn arith_kind_known(kind: u8) -> bool {
    kind <= 7 || kind == 0xE
}

impl Instruction {
    /// Register operands name one of the sixteen registers, addresses fit
    /// in twelve bits and row counts in four.
    pub open spec fn wf(self) -> bool {
        match self {
            Instruction::Jump { addr } => addr < 0x1000,
            Instruction::Call { addr } => addr < 0x1000,
            Instruction::SetIndex { addr } => addr < 0x1000,
            Instruction::JumpOffset { addr } => addr < 0x1000,
            Instruction::SkipIfEqualByte { x, nn } => x < 16,
            Instruction::SkipIfNotEqualByte { x, nn } => x < 16,
            Instruction::SkipIfEqualReg { x, y } => x < 16 && y < 16,
            Instruction::SetByte { x, nn } => x < 16,
            Instruction::AddByte { x, nn } => x < 16,
            Instruction::Arith { x, y, kind } => x < 16 && y < 16 && arith_kind_known(kind),
            Instruction::SkipIfNotEqualReg { x, y } => x < 16 && y < 16,
            Instruction::Random { x, nn } => x < 16,
            Instruction::Draw { x, y, n } => x < 16 && y < 16 && n < 16,
            Instruction::SkipIfKeyPressed { x } => x < 16,
            Instruction::SkipIfKeyNotPressed { x } => x < 16,
            Instruction::ReadDelay { x } => x < 16,
            Instruction::WaitKey { x } => x < 16,
            Instruction::SetDelay { x } => x < 16,
            Instruction::SetSound { x } => x < 16,
            Instruction::AddIndex { x } => x < 16,
            Instruction::FontChar { x } => x < 16,
            Instruction::StoreBcd { x } => x < 16,
            Instruction::StoreRegs { x } => x < 16,
            Instruction::LoadRegs { x } => x < 16,
            _ => true,
        }
    }
}

/// The 16-bit opcode stored big-endian in the bytes `high`, `low`.
pub open spec fn opcode_of(high: u8, low: u8) -> u16 {
    (high * 256 + low) as u16
}

/// The instruction that `op` encodes, or `None` when it encodes none.
pub open spec fn decode_spec(op: u16) -> Option<Instruction> {
    let x = ((op / 256) % 16) as usize;
    let y = ((op / 16) % 16) as usize;
    let n = (op % 16) as u8;
    let nn = (op % 256) as u8;
    let addr = (op % 4096) as u16;
    let low = op % 256;
    match op / 4096 {
        0 => if op == 0x00E0 {
            Some(Instruction::ClearScreen)
        } else if op == 0x00EE {
            Some(Instruction::Return)
        } else if op == 0x00FF {
            Some(Instruction::HighResolution)
        } else {
            None
        },
        1 => Some(Instruction::Jump { addr }),
        2 => Some(Instruction::Call { addr }),
        3 => Some(Instruction::SkipIfEqualByte { x, nn }),
        4 => Some(Instruction::SkipIfNotEqualByte { x, nn }),
        5 => if n == 0 {
            Some(Instruction::SkipIfEqualReg { x, y })
        } else {
            None
        },
        6 => Some(Instruction::SetByte { x, nn }),
        7 => Some(Instruction::AddByte { x, nn }),
        8 => if arith_kind_known(n) {
            Some(Instruction::Arith { x, y, kind: n })
        } else {
            None
        },
        9 => if n == 0 {
            Some(Instruction::SkipIfNotEqualReg { x, y })
        } else {
            None
        },
        0xA => Some(Instruction::SetIndex { addr }),
        0xB => Some(Instruction::JumpOffset { addr }),
        0xC => Some(Instruction::Random { x, nn }),
        0xD => Some(Instruction::Draw { x, y, n }),
        0xE => if low == 0x9E {
            Some(Instruction::SkipIfKeyPressed { x })
        } else if low == 0xA1 {
            Some(Instruction::SkipIfKeyNotPressed { x })
        } else {
            None
        },
        _ => if low == 0x07 {
            Some(Instruction::ReadDelay { x })
        } else if low == 0x0A {
            Some(Instruction::WaitKey { x })
        } else if low == 0x15 {
            Some(Instruction::SetDelay { x })
        } else if low == 0x18 {
            Some(Instruction::SetSound { x })
        } else if low == 0x1E {
            Some(Instruction::AddIndex { x })
        } else if low == 0x29 {
            Some(Instruction::FontChar { x })
        } else if low == 0x33 {
            Some(Instruction::StoreBcd { x })
        } else if low == 0x55 {
            Some(Instruction::StoreRegs { x })
        } else if low == 0x65 {
            Some(Instruction::LoadRegs { x })
        } else {
            None
        },
    }
}

/// Decodes `op`; every instruction it yields is well formed.
pub fn decode(op: u16) -> (r: Option<Instruction>)
    ensures
        r == decode_spec(op),
        r matches Some(ins) ==> ins.wf(),
{
    let x = ((op / 256) % 16) as usize;
    let y = ((op / 16) % 16) as usize;
    let n = (op % 16) as u8;
    let nn = (op % 256) as u8;
    let addr = op % 4096;
    let low = op % 256;
    match op / 4096 {
        0 => if op == 0x00E0 {
            Some(Instruction::ClearScreen)
        } else if op == 0x00EE {
            Some(Instruction::Return)
        } else if op == 0x00FF {
            Some(Instruction::HighResolution)
        } else {
            None
        },
        1 => Some(Instruction::Jump { addr }),
        2 => Some(Instruction::Call { addr }),
        3 => Some(Instruction::SkipIfEqualByte { x, nn }),
        4 => Some(Instruction::SkipIfNotEqualByte { x, nn }),
        5 => if n == 0 {
            Some(Instruction::SkipIfEqualReg { x, y })
        } else {
            None
        },
        6 => Some(Instruction::SetByte { x, nn }),
        7 => Some(Instruction::AddByte { x, nn }),
        8 => if n <= 7 || n == 0xE {
            Some(Instruction::Arith { x, y, kind: n })
        } else {
            None
        },
        9 => if n == 0 {
            Some(Instruction::SkipIfNotEqualReg { x, y })
        } else {
            None
        },
        0xA => Some(Instruction::SetIndex { addr }),
        0xB => Some(Instruction::JumpOffset { addr }),
        0xC => Some(Instruction::Random { x, nn }),
        0xD => Some(Instruction::Draw { x, y, n }),
        0xE => if low == 0x9E {
            Some(Instruction::SkipIfKeyPressed { x })
        } else if low == 0xA1 {
            Some(Instruction::SkipIfKeyNotPressed { x })
        } else {
            None
        },
        _ => if low == 0x07 {
            Some(Instruction::ReadDelay { x })
        } else if low == 0x0A {
            Some(Instruction::WaitKey { x })
        } else if low == 0x15 {
            Some(Instruction::SetDelay { x })
        } else if low == 0x18 {
            Some(Instruction::SetSound { x })
        } else if low == 0x1E {
            Some(Instruction::AddIndex { x })
        } else if low == 0x29 {
            Some(Instruction::FontChar { x })
        } else if low == 0x33 {
            Some(Instruction::StoreBcd { x })
        } else if low == 0x55 {
            Some(Instruction::StoreRegs { x })
        } else if low == 0x65 {
            Some(Instruction::LoadRegs { x })
        } else {
            None
        },
    }
}

} // verus!
