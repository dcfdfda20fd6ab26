use vstd::prelude::*;
use crate::display::{blank_screen, blit};
use crate::fault::Fault;
use crate::instruction::{arith_kind_known, decode_spec, opcode_of, Instruction};
use crate::keypad::keys_released;
use crate::stack::STACK_SIZE;

verus! {

/// Bytes of addressable memory.
pub const MEMORY_SIZE: usize = 4096;

/// Number of general-purpose registers `V0`..`VF`.
pub const REGISTER_COUNT: usize = 16;

/// Address at which programs are loaded and execution starts.
pub const PROGRAM_START: u16 = 0x200;

/// Largest program that fits between `PROGRAM_START` and the end of memory.
pub const PROGRAM_SIZE: usize = 3584;

/// Bytes of the built-in font: sixteen glyphs of five rows each.
pub const FONT_SIZE: usize = 80;

/// The whole state of the machine as mathematical values.
pub struct MachineView {
    pub memory: Seq<u8>,
    pub v: Seq<u8>,
    pub i: u16,
    pub pc: u16,
    pub stack: Seq<u16>,
    pub screen: Seq<bool>,
    pub keys: Seq<bool>,
    pub delay: u8,
    pub sound: u8,
    /// Set when the last instruction moved the program counter off the
    /// next instruction in sequence.
    pub redirected: bool,
    pub running: bool,
}

/// The built-in font: glyphs 0 to F, five rows each, four pixels wide.
pub open spec fn font() -> Seq<u8> {
    seq![
        0xF0u8, 0x90, 0x90, 0x90, 0xF0,
        0x20, 0x60, 0x20, 0x20, 0x70,
        0xF0, 0x10, 0xF0, 0x80, 0xF0,
        0xF0, 0x10, 0xF0, 0x10, 0xF0,
        0x90, 0x90, 0xF0, 0x10, 0x10,
        0xF0, 0x80, 0xF0, 0x10, 0xF0,
        0xF0, 0x80, 0xF0, 0x90, 0xF0,
        0xF0, 0x10, 0x20, 0x40, 0x40,
        0xF0, 0x90, 0xF0, 0x90, 0xF0,
        0xF0, 0x90, 0xF0, 0x10, 0xF0,
        0xF0, 0x90, 0xF0, 0x90, 0x90,
        0xE0, 0x90, 0xE0, 0x90, 0xE0,
        0xF0, 0x80, 0x80, 0x80, 0xF0,
        0xE0, 0x90, 0x90, 0x90, 0xE0,
        0xF0, 0x80, 0xF0, 0x80, 0xF0,
        0xF0, 0x80, 0xF0, 0x80, 0x80,
    ]
}

/// Memory after a reset: the font at address 0, zero everywhere else.
pub open spec fn initial_memory() -> Seq<u8> {
    Seq::new(MEMORY_SIZE as nat, |j: int| if j < FONT_SIZE { font()[j] } else { 0u8 })
}

/// Sixteen zeroed registers.
pub open spec fn zero_registers() -> Seq<u8> {
    Seq::new(REGISTER_COUNT as nat, |j: int| 0u8)
}

/// `a` reduced to 16 bits, as unsigned 16-bit arithmetic wraps.
pub open spec fn wrap16(a: int) -> u16 {
    (a % 0x10000) as u16
}

/// Whether key value `k` names a key that is held down; values above 0xF
/// name no key.
pub open spec fn key_down(keys: Seq<bool>, k: u8) -> bool {
    k < 16 && keys[k as int]
}

/// The highest-numbered key below `n` that is held down.
pub open spec fn highest_pressed(keys: Seq<bool>, n: int) -> Option<int>
    decreases n,
{
    if n <= 0 {
        None
    } else if keys[n - 1] {
        Some(n - 1)
    } else {
        highest_pressed(keys, n - 1)
    }
}

impl MachineView {
    /// Register `x` set to `val`.
    pub open spec fn set_reg(self, x: int, val: u8) -> MachineView {
        MachineView { v: self.v.update(x, val), ..self }
    }

    /// `VF` set to `flag`, then register `x` set to `val`; when `x` is
    /// `F` the value wins over the flag.
    pub open spec fn set_flag_and_reg(self, x: int, flag: u8, val: u8) -> MachineView {
        MachineView { v: self.v.update(15, flag).update(x, val), ..self }
    }

    /// The program counter set to `target`.
    pub open spec fn jump_to(self, target: u16) -> MachineView {
        MachineView { pc: target, redirected: true, ..self }
    }

    /// The next instruction skipped when `cond` holds.
    pub open spec fn skip_if(self, cond: bool) -> MachineView {
        if cond {
            self.jump_to(wrap16(self.pc + 2))
        } else {
            self
        }
    }

    /// The bytes of a sprite of `height` rows at `address`.
    pub open spec fn sprite_rows(self, address: int, height: int) -> Seq<u8> {
        self.memory.subrange(address, address + height)
    }

    /// The sprite of `height` rows at `address` drawn at `(vx, vy)`, with no
    /// register changed.
    pub open spec fn with_sprite(self, vx: u8, vy: u8, address: int, height: int) -> MachineView {
        MachineView {
            screen: blit(self.screen, self.sprite_rows(address, height), vx, vy, (height * 8) as nat).0,
            ..self
        }
    }

    /// Whether that sprite turns a lit pixel off.
    pub open spec fn sprite_hits(self, vx: u8, vy: u8, address: int, height: int) -> bool {
        blit(self.screen, self.sprite_rows(address, height), vx, vy, (height * 8) as nat).1
    }
}

/// The register operation `8XYK` with `K == kind`. Every result is computed
/// from the registers as they were before the instruction.
pub open spec fn arith_spec(s: MachineView, x: int, y: int, kind: u8) -> MachineView {
    let a = s.v[x];
    let b = s.v[y];
    if kind == 0 {
        s.set_reg(x, b)
    } else if kind == 1 {
        s.set_reg(x, a | b)
    } else if kind == 2 {
        s.set_reg(x, a & b)
    } else if kind == 3 {
        s.set_reg(x, a ^ b)
    } else if kind == 4 {
        s.set_flag_and_reg(x, if a + b > 255 { 1 } else { 0 }, ((a + b) % 256) as u8)
    } else if kind == 5 {
        s.set_flag_and_reg(x, if a >= b { 1 } else { 0 }, ((a - b + 256) % 256) as u8)
    } else if kind == 6 {
        s.set_flag_and_reg(x, a % 2, a / 2)
    } else if kind == 7 {
        s.set_flag_and_reg(x, if b >= a { 1 } else { 0 }, ((b - a + 256) % 256) as u8)
    } else {
        s.set_flag_and_reg(x, a / 128, ((a * 2) % 256) as u8)
    }
}

/// `FX1E`: `I` grows by `VX` in 16-bit arithmetic; `VF` tells whether the
/// new `I` lies beyond 0xFFF.
pub open spec fn add_index_spec(s: MachineView, x: int) -> MachineView {
    let ni = wrap16(s.i + s.v[x]);
    MachineView { i: ni, v: s.v.update(15, if ni > 0xFFF { 1u8 } else { 0u8 }), ..s }
}

/// `FX0A`: the highest key held down goes into `VX`; with no key held the
/// program counter steps back so that the instruction is fetched again.
pub open spec fn wait_key_spec(s: MachineView, x: int) -> MachineView {
    match highest_pressed(s.keys, 16) {
        Some(k) => s.set_reg(x, k as u8),
        None => s.jump_to(wrap16(s.pc - 2)),
    }
}

/// `FX33`: the hundreds, tens and ones of `VX` at `I`, `I+1`, `I+2`. Memory
/// below the program area is never written.
pub open spec fn store_bcd_spec(s: MachineView, x: int) -> Result<MachineView, Fault> {
    let a = s.i as int;
    let val = s.v[x];
    if a < PROGRAM_START {
        Err(Fault::MemoryOutOfBounds { address: a as usize })
    } else if a + 2 >= MEMORY_SIZE {
        Err(Fault::MemoryOutOfBounds { address: (a + 2) as usize })
    } else {
        Ok(
            MachineView {
                memory: s.memory.update(a, val / 100).update(a + 1, (val / 10) % 10).update(
                    a + 2,
                    val % 10,
                ),
                ..s
            },
        )
    }
}

/// `FX55`: `V0..=VX` copied to memory from `I` on; `I` then advances by
/// `X + 1`. Memory below the program area is never written.
pub open spec fn store_regs_spec(s: MachineView, x: int) -> Result<MachineView, Fault> {
    let a = s.i as int;
    if a < PROGRAM_START {
        Err(Fault::MemoryOutOfBounds { address: a as usize })
    } else if a + x >= MEMORY_SIZE {
        Err(Fault::MemoryOutOfBounds { address: (a + x) as usize })
    } else {
        Ok(
            MachineView {
                memory: Seq::new(
                    s.memory.len(),
                    |j: int|
                        if a <= j <= a + x {
                            s.v[j - a]
                        } else {
                            s.memory[j]
                        },
                ),
                i: (a + x + 1) as u16,
                ..s
            },
        )
    }
}

/// `FX65`: `V0..=VX` filled from memory from `I` on; `I` then advances by
/// `X + 1`.
pub open spec fn load_regs_spec(s: MachineView, x: int) -> Result<MachineView, Fault> {
    let a = s.i as int;
    if a + x >= MEMORY_SIZE {
        Err(Fault::MemoryOutOfBounds { address: (a + x) as usize })
    } else {
        Ok(
            MachineView {
                v: Seq::new(
                    s.v.len(),
                    |j: int|
                        if j <= x {
                            s.memory[a + j]
                        } else {
                            s.v[j]
                        },
                ),
                i: (a + x + 1) as u16,
                ..s
            },
        )
    }
}

/// `DXYN`: the `N`-row sprite at `I` drawn at `(VX, VY)`; `VF` tells
/// whether a lit pixel was turned off.
pub open spec fn draw_spec(s: MachineView, x: int, y: int, n: int) -> Result<MachineView, Fault> {
    if s.i + n > MEMORY_SIZE {
        Err(Fault::MemoryOutOfBounds { address: (s.i + n - 1) as usize })
    } else {
        let t = s.with_sprite(s.v[x], s.v[y], s.i as int, n);
        Ok(
            MachineView {
                v: s.v.update(15, if s.sprite_hits(s.v[x], s.v[y], s.i as int, n) { 1u8 } else { 0u8 }),
                ..t
            },
        )
    }
}

/// `2NNN`: the program counter pushed, then a jump to `addr`.
pub open spec fn call_spec(s: MachineView, addr: u16) -> Result<MachineView, Fault> {
    if s.stack.len() >= STACK_SIZE {
        Err(Fault::StackOverflow)
    } else {
        Ok(MachineView { stack: s.stack.push(s.pc), ..s }.jump_to(addr))
    }
}

/// `00EE`: a jump to the address popped from the call stack.
pub open spec fn return_spec(s: MachineView) -> Result<MachineView, Fault> {
    if s.stack.len() == 0 {
        Err(Fault::StackUnderflow)
    } else {
        Ok(MachineView { stack: s.stack.drop_last(), ..s }.jump_to(s.stack.last()))
    }
}

/// `8XYK` given as the whole `opcode`: the register operation when its low
/// nibble names one, else the unknown-opcode fault for `opcode` at `PC`.
pub open spec fn arith_opcode_spec(s: MachineView, opcode: u16, x: int, y: int) -> Result<
    MachineView,
    Fault,
> {
    if arith_kind_known((opcode % 16) as u8) {
        Ok(arith_spec(s, x, y, (opcode % 16) as u8))
    } else {
        Err(Fault::UnknownOpcode { opcode, pc: s.pc })
    }
}

/// The effect of `ins` on `s`, with `rnd` as the random byte for `CXNN`.
/// During a tick `s.pc` already addresses the following instruction.
pub open spec fn execute_spec(s: MachineView, ins: Instruction, rnd: u8) -> Result<MachineView, Fault> {
    match ins {
        Instruction::ClearScreen => Ok(MachineView { screen: blank_screen(), ..s }),
        Instruction::Return => return_spec(s),
        Instruction::HighResolution => Ok(s),
        Instruction::Jump { addr } => Ok(s.jump_to(addr)),
        Instruction::Call { addr } => call_spec(s, addr),
        Instruction::SkipIfEqualByte { x, nn } => Ok(s.skip_if(s.v[x as int] == nn)),
        Instruction::SkipIfNotEqualByte { x, nn } => Ok(s.skip_if(s.v[x as int] != nn)),
        Instruction::SkipIfEqualReg { x, y } => Ok(s.skip_if(s.v[x as int] == s.v[y as int])),
        Instruction::SetByte { x, nn } => Ok(s.set_reg(x as int, nn)),
        Instruction::AddByte { x, nn } => Ok(s.set_reg(x as int, ((s.v[x as int] + nn) % 256) as u8)),
        Instruction::Arith { x, y, kind } => Ok(arith_spec(s, x as int, y as int, kind)),
        Instruction::SkipIfNotEqualReg { x, y } => Ok(s.skip_if(s.v[x as int] != s.v[y as int])),
        Instruction::SetIndex { addr } => Ok(MachineView { i: addr, ..s }),
        Instruction::JumpOffset { addr } => Ok(s.jump_to(wrap16(addr + s.v[0]))),
        Instruction::Random { x, nn } => Ok(s.set_reg(x as int, rnd & nn)),
        Instruction::Draw { x, y, n } => draw_spec(s, x as int, y as int, n as int),
        Instruction::SkipIfKeyPressed { x } => Ok(s.skip_if(key_down(s.keys, s.v[x as int]))),
        Instruction::SkipIfKeyNotPressed { x } => Ok(s.skip_if(!key_down(s.keys, s.v[x as int]))),
        Instruction::ReadDelay { x } => Ok(s.set_reg(x as int, s.delay)),
        Instruction::WaitKey { x } => Ok(wait_key_spec(s, x as int)),
        Instruction::SetDelay { x } => Ok(MachineView { delay: s.v[x as int], ..s }),
        Instruction::SetSound { x } => Ok(MachineView { sound: s.v[x as int], ..s }),
        Instruction::AddIndex { x } => Ok(add_index_spec(s, x as int)),
        Instruction::FontChar { x } => Ok(MachineView { i: (s.v[x as int] * 5) as u16, ..s }),
        Instruction::StoreBcd { x } => store_bcd_spec(s, x as int),
        Instruction::StoreRegs { x } => store_regs_spec(s, x as int),
        Instruction::LoadRegs { x } => load_regs_spec(s, x as int),
    }
}

/// Both timers one step closer to zero.
pub open spec fn count_down(s: MachineView) -> MachineView {
    MachineView {
        delay: if s.delay > 0 { (s.delay - 1) as u8 } else { 0 },
        sound: if s.sound > 0 { (s.sound - 1) as u8 } else { 0 },
        ..s
    }
}

/// One tick: fetch the opcode at `pc`, advance `pc` past it, execute, then
/// count the timers down. A fault leaves the state as it was.
pub open spec fn tick_spec(s: MachineView, rnd: u8) -> Result<MachineView, Fault> {
    let pc = s.pc as int;
    if pc + 1 >= MEMORY_SIZE {
        Err(Fault::MemoryOutOfBounds { address: (pc + 1) as usize })
    } else {
        let op = opcode_of(s.memory[pc], s.memory[pc + 1]);
        match decode_spec(op) {
            None => Err(Fault::UnknownOpcode { opcode: op, pc: s.pc }),
            Some(ins) => match execute_spec(
                MachineView { pc: (pc + 2) as u16, redirected: false, ..s },
                ins,
                rnd,
            ) {
                Ok(t) => Ok(count_down(t)),
                Err(e) => Err(e),
            },
        }
    }
}

/// Registers, `I`, `PC`, call stack, timers and memory reinitialised; the
/// framebuffer, keys and run state kept.
pub open spec fn reset_spec(s: MachineView) -> MachineView {
    MachineView {
        memory: initial_memory(),
        v: zero_registers(),
        i: 0,
        pc: PROGRAM_START,
        stack: Seq::empty(),
        delay: 0,
        sound: 0,
        redirected: false,
        ..s
    }
}

/// A reset, then `program` copied to memory from `PROGRAM_START` on.
pub open spec fn load_spec(s: MachineView, program: Seq<u8>) -> Result<MachineView, Fault> {
    if program.len() > PROGRAM_SIZE {
        Err(Fault::RomTooLarge { len: program.len() as usize })
    } else {
        let r = reset_spec(s);
        Ok(
            MachineView {
                memory: Seq::new(
                    MEMORY_SIZE as nat,
                    |j: int|
                        if PROGRAM_START <= j < PROGRAM_START + program.len() {
                            program[j - PROGRAM_START]
                        } else {
                            r.memory[j]
                        },
                ),
                ..r
            },
        )
    }
}

/// The machine as it is built: reset, with a blank screen, no key held and
/// not running.
pub open spec fn power_on() -> MachineView {
    MachineView {
        memory: initial_memory(),
        v: zero_registers(),
        i: 0,
        pc: PROGRAM_START,
        stack: Seq::empty(),
        screen: blank_screen(),
        keys: keys_released(),
        delay: 0,
        sound: 0,
        redirected: false,
        running: false,
    }
}

/// `after` and `r` are what carrying out `expected` from `before` gives: its
/// state on success, `before` unchanged with its fault on failure.
pub open spec fn applied(
    before: MachineView,
    after: MachineView,
    r: Result<(), Fault>,
    expected: Result<MachineView, Fault>,
) -> bool {
    match expected {
        Ok(s) => r == Ok::<(), Fault>(()) && after == s,
        Err(e) => r == Err::<(), Fault>(e) && after == before,
    }
}

} // verus!
