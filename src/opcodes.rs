use vstd::prelude::*;
use crate::chip8::Chip8;
use crate::display::{blank_screen, blit, SCREEN_HEIGHT, SCREEN_WIDTH};
use crate::fault::Fault;
use crate::machine::{
    add_index_spec, applied, arith_opcode_spec, arith_spec, call_spec, draw_spec, highest_pressed, key_down, load_regs_spec,
    return_spec, store_bcd_spec, store_regs_spec, wait_key_spec, wrap16, MachineView,
    MEMORY_SIZE, PROGRAM_START, REGISTER_COUNT,
};
use crate::keypad::KEY_COUNT;
use crate::random::random_byte;

verus! {

impl Chip8 {
    /// Moves `PC` forward over one instruction.
    fn increment_pc(&mut self)
        ensures
            final(self)@ == old(self)@.jump_to(wrap16(old(self)@.pc + 2)),
    {
        self.pc = self.pc.wrapping_add(2);
        self.skip_increment_pc = true;
    }

    /// `00E0`: turns every pixel off.
    pub fn opcode_clear_screen(&mut self)
        ensures
            final(self)@ == (MachineView { screen: blank_screen(), ..old(self)@ }),
    {
        self.display.clear();
    }

    /// `00EE`: jumps to the address popped from the call stack; an empty
    /// stack is an underflow.
    pub fn return_from_subroutine(&mut self) -> (r: Result<(), Fault>)
        ensures
            applied(old(self)@, final(self)@, r, return_spec(old(self)@)),
    {
        match self.stack.pop() {
            Ok(a) => {
                self.pc = a;
                self.skip_increment_pc = true;
                Ok(())
            },
            Err(e) => Err(e),
        }
    }

    /// `00FF`: the extended graphics mode is acknowledged and ignored.
    pub fn set_schip_graphic_mode(&mut self)
        ensures
            final(self)@ == old(self)@,
    {
    }

    /// `1NNN`: jumps to `address`.
    pub fn opcode_jmp(&mut self, address: u16)
        ensures
            final(self)@ == old(self)@.jump_to(address),
    {
        self.pc = address;
        self.skip_increment_pc = true;
    }

    /// `2NNN`: pushes `PC`, which during a tick already addresses the
    /// instruction after the call, and jumps to `address`. A full stack is
    /// an overflow.
    pub fn opcode_call_subroutine(&mut self, address: u16) -> (r: Result<(), Fault>)
        ensures
            applied(old(self)@, final(self)@, r, call_spec(old(self)@, address)),
    {
        match self.stack.push(self.pc) {
            Ok(()) => {
                self.pc = address;
                self.skip_increment_pc = true;
                Ok(())
            },
            Err(e) => Err(e),
        }
    }

    /// `3XNN`: skips the next instruction when `VX == NN`.
    pub fn opcode_skip_if_vx_equals_nn(&mut self, x: usize, nn: u8)
        requires
            x < REGISTER_COUNT,
        ensures
            final(self)@ == old(self)@.skip_if(old(self)@.v[x as int] == nn),
    {
        if self.v[x] == nn {
            self.increment_pc();
        }
    }

    /// `4XNN`: skips the next instruction when `VX != NN`.
    pub fn opcode_skip_if_vx_diffs_nn(&mut self, x: usize, nn: u8)
        requires
            x < REGISTER_COUNT,
        ensures
            final(self)@ == old(self)@.skip_if(old(self)@.v[x as int] != nn),
    {
        if self.v[x] != nn {
            self.increment_pc();
        }
    }

    /// `5XY0`: skips the next instruction when `VX == VY`.
    pub fn opcode_skip_if_vx_equals_vy(&mut self, x: usize, y: usize)
        requires
            x < REGISTER_COUNT,
            y < REGISTER_COUNT,
        ensures
            final(self)@ == old(self)@.skip_if(old(self)@.v[x as int] == old(self)@.v[y as int]),
    {
        if self.v[x] == self.v[y] {
            self.increment_pc();
        }
    }

    /// `6XNN`: `VX = NN`.
    pub fn opcode_set_vx_to_nn(&mut self, x: usize, nn: u8)
        requires
            x < REGISTER_COUNT,
        ensures
            final(self)@ == old(self)@.set_reg(x as int, nn),
    {
        self.v[x] = nn;
    }

    /// `7XNN`: `VX = VX + NN` modulo 256; no flag is touched.
    pub fn opcode_adds_nn_to_vx(&mut self, x: usize, nn: u8)
        requires
            x < REGISTER_COUNT,
        ensures
            final(self)@ == old(self)@.set_reg(x as int, ((old(self)@.v[x as int] + nn) % 256) as u8),
    {
        self.v[x] = self.v[x].wrapping_add(nn);
    }

    /// `8XYK`: the register operation named by the low nibble of `opcode`:
    /// copy, or, and, xor, add with carry, subtract, shift right, reverse
    /// subtract, shift left. Flags go to `VF` before the result goes to `VX`.
    /// A low nibble that names no operation is the unknown-opcode fault.
    pub fn opcode_set_vx_to_vy(&mut self, opcode: u16, x: usize, y: usize) -> (r: Result<(), Fault>)
        requires
            x < REGISTER_COUNT,
            y < REGISTER_COUNT,
        ensures
            applied(
                old(self)@,
                final(self)@,
                r,
                arith_opcode_spec(old(self)@, opcode, x as int, y as int),
            ),
    {
        let a = self.v[x];
        let b = self.v[y];
        let kind = opcode % 16;
        if !(kind <= 7 || kind == 0xE) {
            return Err(Fault::UnknownOpcode { opcode, pc: self.pc });
        }
        if kind == 0 {
            self.v[x] = b;
        } else if kind == 1 {
            self.v[x] = a | b;
        } else if kind == 2 {
            self.v[x] = a & b;
        } else if kind == 3 {
            self.v[x] = a ^ b;
        } else if kind == 4 {
            let sum: u16 = a as u16 + b as u16;
            self.v[0xF] = if sum > 0xFF { 1 } else { 0 };
            self.v[x] = a.wrapping_add(b);
        } else if kind == 5 {
            self.v[0xF] = if a >= b { 1 } else { 0 };
            self.v[x] = a.wrapping_sub(b);
        } else if kind == 6 {
            self.v[0xF] = a % 2;
            self.v[x] = a / 2;
        } else if kind == 7 {
            self.v[0xF] = if b >= a { 1 } else { 0 };
            self.v[x] = b.wrapping_sub(a);
        } else {
            self.v[0xF] = a / 128;
            self.v[x] = ((a as u16 * 2) % 256) as u8;
        }
        assert(self.v@ =~= arith_spec(old(self)@, x as int, y as int, kind as u8).v);
        Ok(())
    }

    /// `9XY0`: skips the next instruction when `VX != VY`.
    pub fn opcode_skips_if_vx_diffs_vy(&mut self, x: usize, y: usize)
        requires
            x < REGISTER_COUNT,
            y < REGISTER_COUNT,
        ensures
            final(self)@ == old(self)@.skip_if(old(self)@.v[x as int] != old(self)@.v[y as int]),
    {
        if self.v[x] != self.v[y] {
            self.increment_pc();
        }
    }

    /// `ANNN`: `I = NNN`.
    pub fn opcode_set_i_to_nnn(&mut self, nnn: u16)
        ensures
            final(self)@ == (MachineView { i: nnn, ..old(self)@ }),
    {
        self.address_register = nnn;
    }

    /// `BNNN`: jumps to `NNN + V0`.
    pub fn opcode_jmp_nnn_plus_v0(&mut self, nnn: u16)
        ensures
            final(self)@ == old(self)@.jump_to(wrap16(nnn + old(self)@.v[0])),
    {
        self.pc = nnn.wrapping_add(self.v[0] as u16);
        self.skip_increment_pc = true;
    }

    /// `CXNN` with `byte` as the random draw: `VX = byte & NN`.
    pub fn opcode_set_vx_to_masked(&mut self, x: usize, nn: u8, byte: u8)
        requires
            x < REGISTER_COUNT,
        ensures
            final(self)@ == old(self)@.set_reg(x as int, byte & nn),
    {
        self.v[x] = byte & nn;
    }

    /// `CXNN`: `VX` = a random byte masked with `NN`. With `NN == 0` the
    /// result is 0 whatever the draw.
    pub fn opcode_set_vx_random(&mut self, x: usize, nn: u8)
        requires
            x < REGISTER_COUNT,
        ensures
            exists|byte: u8| final(self)@ == old(self)@.set_reg(x as int, byte & nn),
            nn == 0 ==> final(self)@ == old(self)@.set_reg(x as int, 0),
    {
        let byte = random_byte();
        self.opcode_set_vx_to_masked(x, nn, byte);
        assert(byte & 0 == 0) by (bit_vector);
    }

    /// `DXYN`: draws the `N`-row sprite at `I` at `(VX, VY)`; `VF = 1` when a
    /// lit pixel was turned off, else 0. A sprite reaching past the end of
    /// memory is a fault.
    pub fn opcode_draw(&mut self, x: usize, y: usize, n: u8) -> (r: Result<(), Fault>)
        requires
            x < REGISTER_COUNT,
            y < REGISTER_COUNT,
            n < 16,
        ensures
            applied(old(self)@, final(self)@, r, draw_spec(old(self)@, x as int, y as int, n as int)),
    {
        match self.draw_sprite(self.v[x], self.v[y], self.address_register, n) {
            Ok(hit) => {
                self.v[0xF] = if hit { 1 } else { 0 };
                Ok(())
            },
            Err(e) => Err(e),
        }
    }

    /// Draws the `height`-row sprite stored at `address` with its top-left
    /// corner at `(x, y)`, wrapping at the screen edges. Each row byte is read
    /// from its most significant bit, left to right, and each set bit toggles
    /// one pixel. Returns whether some lit pixel was turned off. A sprite
    /// reaching past the end of memory is a fault and nothing is drawn.
    pub fn draw_sprite(&mut self, x: u8, y: u8, address: u16, height: u8) -> (r: Result<bool, Fault>)
        ensures
            address + height > MEMORY_SIZE ==> r == Err::<bool, Fault>(
                Fault::MemoryOutOfBounds { address: (address + height - 1) as usize },
            ) && final(self)@ == old(self)@,
            address + height <= MEMORY_SIZE ==> r == Ok::<bool, Fault>(
                old(self)@.sprite_hits(x, y, address as int, height as int),
            ) && final(self)@ == old(self)@.with_sprite(x, y, address as int, height as int),
    {
        if address as usize + height as usize > MEMORY_SIZE {
            return Err(
                Fault::MemoryOutOfBounds { address: address as usize + height as usize - 1 },
            );
        }
        let ghost s0 = self@;
        let ghost screen0 = self@.screen;
        let ghost rows = s0.sprite_rows(address as int, height as int);
        let mut collision = false;
        let mut r: u8 = 0;
        while r < height
            invariant
                r <= height,
                address + height <= MEMORY_SIZE,
                rows == s0.sprite_rows(address as int, height as int),
                self@ == (MachineView { screen: self@.screen, ..s0 }),
                self@.screen == blit(screen0, rows, x, y, (r * 8) as nat).0,
                collision == blit(screen0, rows, x, y, (r * 8) as nat).1,
            decreases height - r,
        {
            let byte = self.memory[address as usize + r as usize];
            let mut c: u8 = 0;
            while c < 8
                invariant
                    r < height,
                    c <= 8,
                    address + height <= MEMORY_SIZE,
                    rows == s0.sprite_rows(address as int, height as int),
                    byte == rows[r as int],
                    self@ == (MachineView { screen: self@.screen, ..s0 }),
                    self@.screen == blit(screen0, rows, x, y, (r * 8 + c) as nat).0,
                    collision == blit(screen0, rows, x, y, (r * 8 + c) as nat).1,
                decreases 8 - c,
            {
                let ghost k = (r * 8 + c) as nat;
                assert(k / 8 == r as int && k % 8 == c as int);
                if (byte >> (7 - c)) & 1 == 1 {
                    let px = ((x as usize + c as usize) % SCREEN_WIDTH) as u8;
                    let py = ((y as usize + r as usize) % SCREEN_HEIGHT) as u8;
                    let on = self.display.draw(px, py);
                    if !on {
                        collision = true;
                    }
                }
                c += 1;
                assert(self@.screen =~= blit(screen0, rows, x, y, (r * 8 + c) as nat).0);
            }
            r += 1;
        }
        Ok(collision)
    }

    /// `EX9E`: skips the next instruction when the key named by `VX` is
    /// held down. Values above 0xF name no key.
    pub fn opcode_skip_key_pressed_in_vx(&mut self, x: usize)
        requires
            x < REGISTER_COUNT,
        ensures
            final(self)@ == old(self)@.skip_if(key_down(old(self)@.keys, old(self)@.v[x as int])),
    {
        let k = self.v[x];
        if (k as usize) < KEY_COUNT && self.keypad.status(k as usize) == 1 {
            self.increment_pc();
        }
    }

    /// `EXA1`: skips the next instruction when the key named by `VX` is not
    /// held down. Values above 0xF name no key.
    pub fn opcode_skip_key_not_pressed_in_vx(&mut self, x: usize)
        requires
            x < REGISTER_COUNT,
        ensures
            final(self)@ == old(self)@.skip_if(!key_down(old(self)@.keys, old(self)@.v[x as int])),
    {
        let k = self.v[x];
        if !((k as usize) < KEY_COUNT && self.keypad.status(k as usize) == 1) {
            self.increment_pc();
        }
    }

    /// `FX07`: `VX = delay timer`.
    pub fn opcode_save_delay_to_vx(&mut self, x: usize)
        requires
            x < REGISTER_COUNT,
        ensures
            final(self)@ == old(self)@.set_reg(x as int, old(self)@.delay),
    {
        self.v[x] = self.timer_delay;
    }

    /// `FX0A`: stores the highest key held down in `VX`. With no key held,
    /// `PC` steps back two bytes so that the instruction is fetched again on
    /// the next tick.
    pub fn opcode_wait_key(&mut self, x: usize)
        requires
            x < REGISTER_COUNT,
        ensures
            final(self)@ == wait_key_spec(old(self)@, x as int),
    {
        let mut found: Option<u8> = None;
        let mut k: usize = 0;
        while k < KEY_COUNT
            invariant
                k <= KEY_COUNT,
                self@ == old(self)@,
                match highest_pressed(self@.keys, k as int) {
                    Some(h) => found == Some(h as u8),
                    None => found is None,
                },
                forall|h: int| highest_pressed(self@.keys, k as int) == Some(h) ==> 0 <= h < k,
            decreases KEY_COUNT - k,
        {
            if self.keypad.is_pressed(k) {
                found = Some(k as u8);
            }
            k += 1;
        }
        match found {
            Some(key) => {
                self.v[x] = key;
            },
            None => {
                self.pc = self.pc.wrapping_sub(2);
                self.skip_increment_pc = true;
            },
        }
    }

    /// `FX15`: `delay timer = VX`.
    pub fn opcode_save_vx_to_delay(&mut self, x: usize)
        requires
            x < REGISTER_COUNT,
        ensures
            final(self)@ == (MachineView { delay: old(self)@.v[x as int], ..old(self)@ }),
    {
        self.timer_delay = self.v[x];
    }

    /// `FX18`: `sound timer = VX`.
    pub fn opcode_save_vx_to_sound_timer(&mut self, x: usize)
        requires
            x < REGISTER_COUNT,
        ensures
            final(self)@ == (MachineView { sound: old(self)@.v[x as int], ..old(self)@ }),
    {
        self.timer_sound = self.v[x];
    }

    /// `FX1E`: `I = I + VX` in 16-bit arithmetic; `VF = 1` when the new `I`
    /// exceeds 0xFFF, else 0.
    pub fn opcode_adds_vx_to_i(&mut self, x: usize)
        requires
            x < REGISTER_COUNT,
        ensures
            final(self)@ == add_index_spec(old(self)@, x as int),
    {
        self.address_register = self.address_register.wrapping_add(self.v[x] as u16);
        self.v[0xF] = if self.address_register > 0xFFF { 1 } else { 0 };
    }

    /// `FX29`: `I` = address of the font glyph for the digit in `VX`.
    pub fn opcode_set_i_with_vx(&mut self, x: usize)
        requires
            x < REGISTER_COUNT,
        ensures
            final(self)@ == (MachineView { i: (old(self)@.v[x as int] * 5) as u16, ..old(self)@ }),
    {
        self.address_register = self.v[x] as u16 * 5;
    }

    /// `FX33`: stores the hundreds, tens and ones digits of `VX` at `I`,
    /// `I+1`, `I+2`.
    pub fn opcode_save_bin_vx(&mut self, x: usize) -> (r: Result<(), Fault>)
        requires
            x < REGISTER_COUNT,
        ensures
            applied(old(self)@, final(self)@, r, store_bcd_spec(old(self)@, x as int)),
    {
        let a = self.address_register as usize;
        if a < PROGRAM_START as usize {
            return Err(Fault::MemoryOutOfBounds { address: a });
        }
        if a + 2 >= MEMORY_SIZE {
            return Err(Fault::MemoryOutOfBounds { address: a + 2 });
        }
        let val = self.v[x];
        self.memory[a] = val / 100;
        self.memory[a + 1] = (val / 10) % 10;
        self.memory[a + 2] = val % 10;
        Ok(())
    }

    /// `FX55`: copies `V0..=VX` to memory from `I` on, then advances `I` by
    /// `X + 1`.
    pub fn opcode_dump_v_to_memory(&mut self, x: usize) -> (r: Result<(), Fault>)
        requires
            x < REGISTER_COUNT,
        ensures
            applied(old(self)@, final(self)@, r, store_regs_spec(old(self)@, x as int)),
    {
        let a = self.address_register as usize;
        if a < PROGRAM_START as usize {
            return Err(Fault::MemoryOutOfBounds { address: a });
        }
        if a + x >= MEMORY_SIZE {
            return Err(Fault::MemoryOutOfBounds { address: a + x });
        }
        let mut j: usize = 0;
        while j <= x
            invariant
                j <= x + 1,
                x < REGISTER_COUNT,
                a + x < MEMORY_SIZE,
                a == old(self)@.i,
                self@ == (MachineView { memory: self@.memory, ..old(self)@ }),
                forall|k: int|
                    0 <= k < MEMORY_SIZE ==> self.memory@[k] == (if a <= k < a + j {
                        old(self)@.v[k - a]
                    } else {
                        old(self)@.memory[k]
                    }),
            decreases x + 1 - j,
        {
            self.memory[a + j] = self.v[j];
            j += 1;
        }
        self.address_register = (a + x + 1) as u16;
        assert(self.memory@ =~= store_regs_spec(old(self)@, x as int).unwrap().memory);
        Ok(())
    }

    /// `FX65`: fills `V0..=VX` from memory from `I` on, then advances `I` by
    /// `X + 1`.
    pub fn opcode_fill_v_with_memory(&mut self, x: usize) -> (r: Result<(), Fault>)
        requires
            x < REGISTER_COUNT,
        ensures
            applied(old(self)@, final(self)@, r, load_regs_spec(old(self)@, x as int)),
    {
        let a = self.address_register as usize;
        if a + x >= MEMORY_SIZE {
            return Err(Fault::MemoryOutOfBounds { address: a + x });
        }
        let mut j: usize = 0;
        while j <= x
            invariant
                j <= x + 1,
                x < REGISTER_COUNT,
                a + x < MEMORY_SIZE,
                a == old(self)@.i,
                self@ == (MachineView { v: self@.v, ..old(self)@ }),
                forall|k: int|
                    0 <= k < REGISTER_COUNT ==> self.v@[k] == (if k < j {
                        old(self)@.memory[a + k]
                    } else {
                        old(self)@.v[k]
                    }),
            decreases x + 1 - j,
        {
            self.v[j] = self.memory[a + j];
            j += 1;
        }
        self.address_register = (a + x + 1) as u16;
        assert(self.v@ =~= load_regs_spec(old(self)@, x as int).unwrap().v);
        Ok(())
    }
}

} // verus!
