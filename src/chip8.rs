use vstd::prelude::*;
use crate::display::{blank_screen, Display};
use crate::fault::Fault;
use crate::instruction::{decode, Instruction};
use crate::keypad::Keypad;
use crate::machine::{
    applied, execute_spec, font, initial_memory, load_spec, power_on, reset_spec,
    tick_spec, zero_registers, MachineView, FONT_SIZE, MEMORY_SIZE, PROGRAM_SIZE, PROGRAM_START,
    REGISTER_COUNT,
};
use crate::random::random_byte;
use crate::stack::Stack;

verus! {

/// The interpreter: memory, registers, call stack, timers, framebuffer and
/// keypad of one emulation session.
pub struct Chip8 {
    pub keypad: Keypad,
    pub display: Display,
    pub memory: [u8; MEMORY_SIZE],
    pub v: [u8; REGISTER_COUNT],
    pub address_register: u16,
    pub pc: u16,
    pub stack: Stack,
    pub play: bool,
    pub timer_delay: u8,
    pub timer_sound: u8,
    /// Set when the last instruction moved the program counter off the next
    /// instruction in sequence (jump, call, return, taken skip, key wait);
    /// cleared when a tick starts. It reports what happened: `step` applies
    /// the default advance before executing, so nothing reads it afterwards.
    pub skip_increment_pc: bool,
}

impl View for Chip8 {
    type V = MachineView;

    open spec fn view(&self) -> MachineView {
        MachineView {
            memory: self.memory@,
            v: self.v@,
            i: self.address_register,
            pc: self.pc,
            stack: self.stack@,
            screen: self.display@,
            keys: self.keypad@,
            delay: self.timer_delay,
            sound: self.timer_sound,
            redirected: self.skip_increment_pc,
            running: self.play,
        }
    }
}

/// The built-in font as bytes.
fn font_bytes() -> (f: [u8; FONT_SIZE])
    ensures
        f@ == font(),
{
    let f: [u8; FONT_SIZE] = [
        0xF0, 0x90, 0x90, 0x90, 0xF0,
        0x20, 0x60, 0x20, 0x20, 0x70,
        0xF0, 0x10, 0xF0, 0x80, 0xF0,
        0xF0, 0x10, 0xF0, 0x10, 0xF0,
        0x90, 0x90, 0xF0, 0x10, 0x10,
        0xF0, 0x80, 0xF0, 0x10, 0xF0,
        0xF0, 0x80, 0xF0, 0x90, 0xF0,
        0xF0, 0x10, 0x20, 0x40, 0x40,
        0xF0, 0x90, 0xF0, 0x90, 0xF0,
        0xF0, 0x90, 0xF0, 0x10, 0xF0,
        0xF0, 0x90, 0xF0, 0x90, 0x90,
        0xE0, 0x90, 0xE0, 0x90, 0xE0,
        0xF0, 0x80, 0x80, 0x80, 0xF0,
        0xE0, 0x90, 0x90, 0x90, 0xE0,
        0xF0, 0x80, 0xF0, 0x80, 0xF0,
        0xF0, 0x80, 0xF0, 0x80, 0x80,
    ];
    assert(f@ =~= font());
    f
}

/// Memory holding the font at address 0 and zero elsewhere.
fn fresh_memory() -> (m: [u8; MEMORY_SIZE])
    ensures
        m@ == initial_memory(),
{
    let f = font_bytes();
    let mut m = [0u8; MEMORY_SIZE];
    let mut j: usize = 0;
    while j < FONT_SIZE
        invariant
            j <= FONT_SIZE,
            f@ == font(),
            forall|k: int| 0 <= k < MEMORY_SIZE ==> m@[k] == (if k < j { font()[k] } else { 0u8 }),
        decreases FONT_SIZE - j,
    {
        m[j] = f[j];
        j += 1;
    }
    assert(m@ =~= initial_memory());
    m
}

impl Chip8 {
    /// A machine after power-on: font installed, registers, timers and
    /// stack cleared, `PC` at 0x200, blank screen, no key held, stopped.
    pub fn new() -> (c: Chip8)
        ensures
            c@ == power_on(),
    {
        let c = Chip8 {
            keypad: Keypad::new(),
            display: Display::new(),
            memory: fresh_memory(),
            v: [0u8; REGISTER_COUNT],
            address_register: 0,
            pc: PROGRAM_START,
            stack: Stack::new(),
            play: false,
            timer_delay: 0,
            timer_sound: 0,
            skip_increment_pc: false,
        };
        assert(c.v@ =~= zero_registers());
        c
    }

    /// Reinstalls the font, zeroes the rest of memory, clears registers,
    /// `I`, the stack and the timers, and puts `PC` back at 0x200.
    pub fn reset(&mut self)
        ensures
            final(self)@ == reset_spec(old(self)@),
    {
        self.memory = fresh_memory();
        self.v = [0u8; REGISTER_COUNT];
        self.address_register = 0;
        self.pc = PROGRAM_START;
        self.stack = Stack::new();
        self.timer_delay = 0;
        self.timer_sound = 0;
        self.skip_increment_pc = false;
        assert(self.v@ =~= zero_registers());
    }

    /// Resets, then copies `program` into memory from 0x200 on. A program
    /// longer than the 3584 bytes there is refused and nothing changes.
    pub fn load(&mut self, program: Vec<u8>) -> (r: Result<(), Fault>)
        ensures
            applied(old(self)@, final(self)@, r, load_spec(old(self)@, program@)),
    {
        if program.len() > PROGRAM_SIZE {
            return Err(Fault::RomTooLarge { len: program.len() });
        }
        self.reset();
        let ghost base = self.memory@;
        let mut j: usize = 0;
        while j < program.len()
            invariant
                j <= program.len() <= PROGRAM_SIZE,
                base == initial_memory(),
                forall|k: int|
                    0 <= k < MEMORY_SIZE ==> self.memory@[k] == (if PROGRAM_START <= k
                        < PROGRAM_START + j {
                        program@[k - PROGRAM_START]
                    } else {
                        base[k]
                    }),
                self@ == (MachineView { memory: self.memory@, ..reset_spec(old(self)@) }),
            decreases program.len() - j,
        {
            self.memory[PROGRAM_START as usize + j] = program[j];
            j += 1;
        }
        proof {
            let expected = load_spec(old(self)@, program@).unwrap();
            assert(self.memory@ =~= expected.memory);
        }
        Ok(())
    }

    /// Lets `run` execute instructions.
    pub fn start(&mut self)
        ensures
            final(self)@ == (MachineView { running: true, ..old(self)@ }),
    {
        self.play = true;
    }

    /// Stops `run` from executing instructions.
    pub fn stop(&mut self)
        ensures
            final(self)@ == (MachineView { running: false, ..old(self)@ }),
    {
        self.play = false;
    }

    /// Stops `run` from executing instructions; `start` resumes.
    pub fn pause(&mut self)
        ensures
            final(self)@ == (MachineView { running: false, ..old(self)@ }),
    {
        self.play = false;
    }

    /// The current sound timer, for the host's audio.
    pub fn sound_timer(&self) -> (t: u8)
        ensures
            t == self@.sound,
    {
        self.timer_sound
    }

    /// The current delay timer.
    pub fn delay_timer(&self) -> (t: u8)
        ensures
            t == self@.delay,
    {
        self.timer_delay
    }

    /// Carries out `ins`, with `random` as the draw for `CXNN`. A fault
    /// leaves the machine as it was.
    ///
    /// During a tick `PC` already addresses the instruction after `ins`:
    /// `step` applies the default advance of 2 before calling this. So a
    /// taken skip adds 2 more (4 in all), a call pushes `PC` as it stands
    /// (the address after the call), jumps and returns overwrite it, and a
    /// key wait with no key held steps it back 2.
    pub fn execute(&mut self, ins: Instruction, random: u8) -> (r: Result<(), Fault>)
        requires
            ins.wf(),
        ensures
            applied(old(self)@, final(self)@, r, execute_spec(old(self)@, ins, random)),
    {
        match ins {
            Instruction::ClearScreen => {
                self.opcode_clear_screen();
                Ok(())
            },
            Instruction::Return => self.return_from_subroutine(),
            Instruction::HighResolution => {
                self.set_schip_graphic_mode();
                Ok(())
            },
            Instruction::Jump { addr } => {
                self.opcode_jmp(addr);
                Ok(())
            },
            Instruction::Call { addr } => self.opcode_call_subroutine(addr),
            Instruction::SkipIfEqualByte { x, nn } => {
                self.opcode_skip_if_vx_equals_nn(x, nn);
                Ok(())
            },
            Instruction::SkipIfNotEqualByte { x, nn } => {
                self.opcode_skip_if_vx_diffs_nn(x, nn);
                Ok(())
            },
            Instruction::SkipIfEqualReg { x, y } => {
                self.opcode_skip_if_vx_equals_vy(x, y);
                Ok(())
            },
            Instruction::SetByte { x, nn } => {
                self.opcode_set_vx_to_nn(x, nn);
                Ok(())
            },
            Instruction::AddByte { x, nn } => {
                self.opcode_adds_nn_to_vx(x, nn);
                Ok(())
            },
            Instruction::Arith { x, y, kind } => {
                let opcode: u16 = 0x8000 + x as u16 * 256 + y as u16 * 16 + kind as u16;
                self.opcode_set_vx_to_vy(opcode, x, y)
            },
            Instruction::SkipIfNotEqualReg { x, y } => {
                self.opcode_skips_if_vx_diffs_vy(x, y);
                Ok(())
            },
            Instruction::SetIndex { addr } => {
                self.opcode_set_i_to_nnn(addr);
                Ok(())
            },
            Instruction::JumpOffset { addr } => {
                self.opcode_jmp_nnn_plus_v0(addr);
                Ok(())
            },
            Instruction::Random { x, nn } => {
                self.opcode_set_vx_to_masked(x, nn, random);
                Ok(())
            },
            Instruction::Draw { x, y, n } => self.opcode_draw(x, y, n),
            Instruction::SkipIfKeyPressed { x } => {
                self.opcode_skip_key_pressed_in_vx(x);
                Ok(())
            },
            Instruction::SkipIfKeyNotPressed { x } => {
                self.opcode_skip_key_not_pressed_in_vx(x);
                Ok(())
            },
            Instruction::ReadDelay { x } => {
                self.opcode_save_delay_to_vx(x);
                Ok(())
            },
            Instruction::WaitKey { x } => {
                self.opcode_wait_key(x);
                Ok(())
            },
            Instruction::SetDelay { x } => {
                self.opcode_save_vx_to_delay(x);
                Ok(())
            },
            Instruction::SetSound { x } => {
                self.opcode_save_vx_to_sound_timer(x);
                Ok(())
            },
            Instruction::AddIndex { x } => {
                self.opcode_adds_vx_to_i(x);
                Ok(())
            },
            Instruction::FontChar { x } => {
                self.opcode_set_i_with_vx(x);
                Ok(())
            },
            Instruction::StoreBcd { x } => self.opcode_save_bin_vx(x),
            Instruction::StoreRegs { x } => self.opcode_dump_v_to_memory(x),
            Instruction::LoadRegs { x } => self.opcode_fill_v_with_memory(x),
        }
    }

    /// One tick with `random` as the draw for `CXNN`: fetches the opcode at
    /// `PC`, moves `PC` past it, executes it and counts both timers down.
    /// A fault (fetch past the end of memory, unknown opcode, or one raised
    /// by the instruction) leaves the machine as it was.
    pub fn step(&mut self, random: u8) -> (r: Result<(), Fault>)
        ensures
            applied(old(self)@, final(self)@, r, tick_spec(old(self)@, random)),
    {
        let pc = self.pc as usize;
        if pc + 1 >= MEMORY_SIZE {
            return Err(Fault::MemoryOutOfBounds { address: pc + 1 });
        }
        let opcode: u16 = self.memory[pc] as u16 * 256 + self.memory[pc + 1] as u16;
        match decode(opcode) {
            None => Err(Fault::UnknownOpcode { opcode, pc: self.pc }),
            Some(ins) => {
                let was_redirected = self.skip_increment_pc;
                self.pc = self.pc + 2;
                self.skip_increment_pc = false;
                match self.execute(ins, random) {
                    Ok(()) => {
                        if self.timer_delay > 0 {
                            self.timer_delay = self.timer_delay - 1;
                        }
                        if self.timer_sound > 0 {
                            self.timer_sound = self.timer_sound - 1;
                        }
                        Ok(())
                    },
                    Err(e) => {
                        self.pc = pc as u16;
                        self.skip_increment_pc = was_redirected;
                        Err(e)
                    },
                }
            },
        }
    }

    /// One tick with a fresh random byte for `CXNN`.
    pub fn tick(&mut self) -> (r: Result<(), Fault>)
        ensures
            exists|random: u8| applied(old(self)@, final(self)@, r, tick_spec(old(self)@, random)),
    {
        let random = random_byte();
        self.step(random)
    }

    /// One tick while started; nothing while stopped.
    pub fn run(&mut self) -> (r: Result<(), Fault>)
        ensures
            old(self)@.running ==> exists|random: u8|
                applied(old(self)@, final(self)@, r, tick_spec(old(self)@, random)),
            !old(self)@.running ==> r == Ok::<(), Fault>(()) && final(self)@ == old(self)@,
    {
        if self.play {
            self.tick()
        } else {
            Ok(())
        }
    }
}

} // verus!
