//! Properties that relate several operations of the machine.
use vstd::prelude::*;
use crate::display::{
    blank_screen, blit, covers, lemma_blit_is_sprite_drawn, lemma_cell_of_sprite_pixel, sprite_bit,
    sprite_drawn, SCREEN_CELLS,
};
use crate::fault::Fault;
use crate::instruction::{decode_spec, opcode_of, Instruction};
use crate::machine::{
    arith_spec, call_spec, execute_spec, font, initial_memory, load_spec, reset_spec,
    return_spec, tick_spec, MachineView, MEMORY_SIZE, PROGRAM_SIZE, PROGRAM_START,
    REGISTER_COUNT,
};
use crate::stack::STACK_SIZE;

verus! {

/// `7XNN` with `VX == 250` and `NN == 10` leaves 4 in `VX`, for every `X`,
/// and no other register, `VF` included, changes.
pub proof fn lemma_add_byte_wraps(s: MachineView, x: usize, rnd: u8)
    requires
        s.v.len() == REGISTER_COUNT,
        x < REGISTER_COUNT,
        s.v[x as int] == 250,
    ensures
        execute_spec(s, Instruction::AddByte { x, nn: 10 }, rnd) == Ok::<MachineView, Fault>(
            (MachineView { v: s.v.update(x as int, 4), ..s }),
        ),
{
}

/// `8XY4` for every `X` but `F` and every other `Y`: 200 + 100 leaves 44 in
/// `VX` and a carry in `VF`; 10 + 5 leaves 15 and no carry.
pub proof fn lemma_add_registers_carry(s: MachineView, x: usize, y: usize)
    requires
        s.v.len() == REGISTER_COUNT,
        x < 15,
        y < REGISTER_COUNT,
        x != y,
    ensures
        s.v[x as int] == 200 && s.v[y as int] == 100 ==> arith_spec(s, x as int, y as int, 4).v[x as int]
            == 44 && arith_spec(s, x as int, y as int, 4).v[15] == 1,
        s.v[x as int] == 10 && s.v[y as int] == 5 ==> arith_spec(s, x as int, y as int, 4).v[x as int]
            == 15 && arith_spec(s, x as int, y as int, 4).v[15] == 0,
{
}

/// `8XY5` for every `X` but `F` and every other `Y`: 5 - 10 leaves 251 in
/// `VX` and 0 (a borrow) in `VF`; 10 - 5 leaves 5 and 1 (no borrow).
pub proof fn lemma_subtract_registers_borrow(s: MachineView, x: usize, y: usize)
    requires
        s.v.len() == REGISTER_COUNT,
        x < 15,
        y < REGISTER_COUNT,
        x != y,
    ensures
        s.v[x as int] == 5 && s.v[y as int] == 10 ==> arith_spec(s, x as int, y as int, 5).v[x as int]
            == 251 && arith_spec(s, x as int, y as int, 5).v[15] == 0,
        s.v[x as int] == 10 && s.v[y as int] == 5 ==> arith_spec(s, x as int, y as int, 5).v[x as int]
            == 5 && arith_spec(s, x as int, y as int, 5).v[15] == 1,
{
}

/// Drawing a sprite of fewer than 32 rows a second time at the same place
/// gives back the framebuffer as it was before the first draw.
pub proof fn lemma_redraw_restores(screen: Seq<bool>, rows: Seq<u8>, vx: u8, vy: u8)
    requires
        screen.len() == SCREEN_CELLS,
        rows.len() < 32,
    ensures
        blit(blit(screen, rows, vx, vy, rows.len() * 8).0, rows, vx, vy, rows.len() * 8).0
            == screen,
{
    let once = blit(screen, rows, vx, vy, rows.len() * 8).0;
    lemma_blit_is_sprite_drawn(screen, rows, vx, vy);
    lemma_blit_is_sprite_drawn(once, rows, vx, vy);
    assert(sprite_drawn(sprite_drawn(screen, rows, vx, vy), rows, vx, vy) =~= screen);
}

/// On a blank framebuffer, drawing a sprite that has a set bit (row `r`,
/// column `c`) twice at the same place reports no collision on the first
/// draw, a collision on the second, and leaves the framebuffer blank.
pub proof fn lemma_second_draw_collides(rows: Seq<u8>, vx: u8, vy: u8, r: int, c: int)
    requires
        rows.len() < 32,
        0 <= r < rows.len(),
        0 <= c < 8,
        sprite_bit(rows[r], c),
    ensures
        !blit(blank_screen(), rows, vx, vy, rows.len() * 8).1,
        blit(blit(blank_screen(), rows, vx, vy, rows.len() * 8).0, rows, vx, vy, rows.len() * 8).1,
        blit(blit(blank_screen(), rows, vx, vy, rows.len() * 8).0, rows, vx, vy, rows.len() * 8).0
            == blank_screen(),
{
    let once = blit(blank_screen(), rows, vx, vy, rows.len() * 8).0;
    lemma_blit_is_sprite_drawn(blank_screen(), rows, vx, vy);
    lemma_blit_is_sprite_drawn(once, rows, vx, vy);
    let t = ((vy as int + r) % 32) * 64 + (vx as int + c) % 64;
    lemma_cell_of_sprite_pixel(vx, vy, r, c, t);
    assert(covers(rows, vx, vy, t));
    assert(once[t]);
    lemma_redraw_restores(blank_screen(), rows, vx, vy);
}

/// `2NNN` followed by the `00EE` stored at `NNN` brings `PC` back to the
/// instruction after the call and the call stack back to what it held.
pub proof fn lemma_call_then_return(s: MachineView, r1: u8, r2: u8)
    requires
        s.memory.len() == MEMORY_SIZE,
        s.pc + 1 < MEMORY_SIZE,
        s.memory[s.pc as int] / 16 == 2,
        s.stack.len() < STACK_SIZE,
        ({
            let addr = (s.memory[s.pc as int] % 16) * 256 + s.memory[s.pc + 1];
            addr + 1 < MEMORY_SIZE && s.memory[addr] == 0x00 && s.memory[addr + 1] == 0xEE
        }),
    ensures
        tick_spec(s, r1) is Ok,
        tick_spec(tick_spec(s, r1).unwrap(), r2) is Ok,
        tick_spec(tick_spec(s, r1).unwrap(), r2).unwrap().pc == s.pc + 2,
        tick_spec(tick_spec(s, r1).unwrap(), r2).unwrap().stack == s.stack,
{
    let pc = s.pc as int;
    let op = opcode_of(s.memory[pc], s.memory[pc + 1]);
    let addr = (s.memory[pc] % 16) * 256 + s.memory[pc + 1];
    assert(op / 4096 == 2);
    assert(op % 4096 == addr);
    assert(decode_spec(op) == Some(Instruction::Call { addr: addr as u16 }));
    let t1 = tick_spec(s, r1).unwrap();
    assert(t1.pc == addr);
    assert(t1.memory == s.memory);
    assert(t1.stack == s.stack.push((pc + 2) as u16));
    assert(opcode_of(t1.memory[addr], t1.memory[addr + 1]) == 0x00EE);
    assert(decode_spec(0x00EE) == Some(Instruction::Return));
    let t2 = tick_spec(t1, r2).unwrap();
    assert(t2.stack =~= s.stack);
}

/// The `2NNN` handler followed at once by the `00EE` handler brings `PC`
/// back to the address the call pushed, the `PC` it ran with (during a tick,
/// the instruction after the call), and the call stack back to what it held.
pub proof fn lemma_call_handler_then_return_handler(s: MachineView, addr: u16)
    requires
        s.stack.len() < STACK_SIZE,
    ensures
        call_spec(s, addr) is Ok,
        return_spec(call_spec(s, addr).unwrap()) is Ok,
        return_spec(call_spec(s, addr).unwrap()).unwrap().pc == s.pc,
        return_spec(call_spec(s, addr).unwrap()).unwrap().stack == s.stack,
{
    let t = call_spec(s, addr).unwrap();
    assert(t.stack.drop_last() =~= s.stack);
}

/// `FX55` then, with `I` set back to where it was, `FX65` with the same
/// `X`: the registers come back as they were, and each advances `I` by
/// `X + 1`.
pub proof fn lemma_store_then_load_registers(s: MachineView, x: usize, rnd: u8)
    requires
        s.memory.len() == MEMORY_SIZE,
        s.v.len() == REGISTER_COUNT,
        x < REGISTER_COUNT,
        PROGRAM_START <= s.i,
        s.i + x < MEMORY_SIZE,
    ensures
        execute_spec(s, Instruction::StoreRegs { x }, rnd) is Ok,
        execute_spec(s, Instruction::StoreRegs { x }, rnd).unwrap().i == s.i + x + 1,
        execute_spec(
            MachineView { i: s.i, ..execute_spec(s, Instruction::StoreRegs { x }, rnd).unwrap() },
            Instruction::LoadRegs { x },
            rnd,
        ) is Ok,
        execute_spec(
            MachineView { i: s.i, ..execute_spec(s, Instruction::StoreRegs { x }, rnd).unwrap() },
            Instruction::LoadRegs { x },
            rnd,
        ).unwrap().v == s.v,
        execute_spec(
            MachineView { i: s.i, ..execute_spec(s, Instruction::StoreRegs { x }, rnd).unwrap() },
            Instruction::LoadRegs { x },
            rnd,
        ).unwrap().i == s.i + x + 1,
{
    let t = execute_spec(s, Instruction::StoreRegs { x }, rnd).unwrap();
    let u = execute_spec(MachineView { i: s.i, ..t }, Instruction::LoadRegs { x }, rnd).unwrap();
    assert(u.v =~= s.v);
}

/// `CXNN` with `NN == 0` sets `VX` to 0 whatever the random byte.
pub proof fn lemma_random_with_zero_mask(s: MachineView, x: usize, rnd: u8)
    requires
        x < REGISTER_COUNT,
    ensures
        execute_spec(s, Instruction::Random { x, nn: 0 }, rnd) == Ok::<MachineView, Fault>(
            s.set_reg(x as int, 0),
        ),
{
    assert(rnd & 0 == 0) by (bit_vector);
}

/// Loading a program and then resetting puts `PC` back at 0x200 and the
/// exact font back at address 0, the rest of memory zeroed.
pub proof fn lemma_load_then_reset(s: MachineView, program: Seq<u8>)
    requires
        program.len() <= PROGRAM_SIZE,
    ensures
        load_spec(s, program) is Ok,
        reset_spec(load_spec(s, program).unwrap()).pc == PROGRAM_START,
        reset_spec(load_spec(s, program).unwrap()).memory.subrange(0, 80) == font(),
        reset_spec(load_spec(s, program).unwrap()).memory == initial_memory(),
{
    assert(initial_memory().subrange(0, 80) =~= font());
}

} // verus!
