//! Laws of the machine: what holds of every state and every instruction
//! word, proved from the definitions in `machine`, `instruction` and
//! `display`.

use vstd::prelude::*;
use crate::display::blank;
use crate::display::collides;
use crate::display::drawn;
use crate::display::sprite_bit;
use crate::instruction::decoded;
use crate::instruction::digit;
use crate::instruction::Instruction;
use crate::machine::Machine;
use crate::memory::with_rom;
use crate::registers::wrap16;

verus! {

/// The lower two digits of a word make up its lower byte.
proof fn lemma_low_digits(word: u16)
    ensures
        digit(word, 1) * 16 + digit(word, 0) == word % 0x100,
{
    assert((word / 16) % 16 * 16 + word % 16 == word % 0x100) by (bit_vector);
}

/// Moving the program counter on by one instruction and back again leaves
/// it where it was.
proof fn lemma_rewind(pc: u16)
    ensures
        wrap16(wrap16(pc + 2) - 2) == pc,
{
}

/// What the key-wait word `Fx0A` stands for.
proof fn lemma_decoded_key_wait(word: u16)
    requires
        digit(word, 3) == 0xF,
        word % 0x100 == 0x0A,
    ensures
        decoded(word) == (Instruction::LdVxK { x: digit(word, 2) }),
        digit(word, 2) < 16,
{
    lemma_low_digits(word);
}

/// Loading a program touches no byte below `0x200` and none behind the
/// program's end: the font and the reserved memory stay as they are.
pub proof fn lemma_rom_stays_in_its_region(memory: Seq<u8>, rom: Seq<u8>, address: int)
    requires
        memory.len() == 4096,
        rom.len() <= 3584,
        0 <= address < 4096,
    ensures
        address < 0x200 || address >= 0x200 + rom.len() ==> with_rom(memory, rom)[address]
            == memory[address],
        0x200 <= address < 0x200 + rom.len() ==> with_rom(memory, rom)[address] == rom[address
            - 0x200],
{
}

/// `7xkk` leaves `(Vx + kk) mod 256` in `Vx`, and leaves `VF` alone unless
/// `Vx` is `VF` itself.
pub proof fn lemma_add_byte(m: Machine, word: u16, draw_slot: bool, random: u8)
    requires
        m.wf(),
        digit(word, 3) == 0x7,
    ensures
        ({
            let x = digit(word, 2) as int;
            let after = m.execute(decoded(word), draw_slot, random);
            &&& after.v[x] == (m.v[x] + word % 0x100) % 0x100
            &&& x != 15 ==> after.v[15] == m.v[15]
        }),
{
}

/// `8xy4` leaves 1 in `VF` if `Vx + Vy` is more than 255 and 0 if it is not,
/// and `(Vx + Vy) mod 256` in `Vx`, unless `Vx` is `VF` itself, which then
/// holds the flag.
pub proof fn lemma_add_registers(m: Machine, word: u16, draw_slot: bool, random: u8)
    requires
        m.wf(),
        digit(word, 3) == 0x8,
        digit(word, 0) == 0x4,
    ensures
        ({
            let x = digit(word, 2) as int;
            let y = digit(word, 1) as int;
            let after = m.execute(decoded(word), draw_slot, random);
            &&& after.v[15] == 1 <==> m.v[x] + m.v[y] > 255
            &&& after.v[15] == 0 <==> m.v[x] + m.v[y] <= 255
            &&& x != 15 ==> after.v[x] == (m.v[x] + m.v[y]) % 0x100
        }),
{
}

/// `8xy1`, `8xy2` and `8xy3` leave 0 in `VF`, whatever it held and whichever
/// registers they name.
pub proof fn lemma_logic_clears_flag(m: Machine, word: u16, draw_slot: bool, random: u8)
    requires
        m.wf(),
        digit(word, 3) == 0x8,
        digit(word, 0) == 0x1 || digit(word, 0) == 0x2 || digit(word, 0) == 0x3,
    ensures
        m.execute(decoded(word), draw_slot, random).v[15] == 0,
{
}

/// A sprite drawn at `(x, y)` lights, on a dark screen, exactly the pixels
/// `((x + col) mod 64, (y + row) mod 32)` of its set bits: nothing is cut
/// off at an edge.
pub proof fn lemma_draw_wraps(x: u8, y: u8, sprite: Seq<u8>, row: int, col: int)
    requires
        sprite.len() <= 15,
        0 <= row < sprite.len(),
        0 <= col < 8,
    ensures
        drawn(blank(), x, y, sprite)[(x + col) % 64][(y + row) % 32] == sprite_bit(sprite, row, col),
{
    let px = (x + col) % 64;
    let py = (y + row) % 32;
    assert((px - x) % 64 == col);
    assert((py - y) % 32 == row);
}

/// Drawing a sprite twice at the same place gives back the screen as it
/// was.
pub proof fn lemma_draw_twice_restores(screen: Seq<Seq<bool>>, x: u8, y: u8, sprite: Seq<u8>)
    requires
        screen.len() == 64,
        forall|px: int| 0 <= px < 64 ==> (#[trigger] screen[px]).len() == 32,
    ensures
        drawn(drawn(screen, x, y, sprite), x, y, sprite) == screen,
{
    let once = drawn(screen, x, y, sprite);
    let twice = drawn(once, x, y, sprite);
    assert forall|px: int| 0 <= px < 64 implies #[trigger] twice[px] == screen[px] by {
        assert(twice[px] =~= screen[px]);
    }
    assert(twice =~= screen);
}

/// On a dark screen, a sprite that has a pixel collides with nothing when
/// it is drawn, and collides when it is drawn a second time at the same
/// place, which turns its pixels off again.
pub proof fn lemma_second_draw_collides(x: u8, y: u8, sprite: Seq<u8>)
    requires
        sprite.len() <= 15,
        exists|row: int, col: int| sprite_bit(sprite, row, col),
    ensures
        !collides(blank(), x, y, sprite),
        collides(drawn(blank(), x, y, sprite), x, y, sprite),
        drawn(drawn(blank(), x, y, sprite), x, y, sprite) == blank(),
{
    let (row, col) = choose|row: int, col: int| sprite_bit(sprite, row, col);
    let once = drawn(blank(), x, y, sprite);
    lemma_draw_wraps(x, y, sprite, row, col);
    assert(sprite_bit(sprite, row, col) && once[(x + col) % 64][(y + row) % 32]);
    assert forall|r: int, c: int| sprite_bit(sprite, r, c) implies !#[trigger] blank()[(x + c)
        % 64][(y + r) % 32] by {}
    lemma_draw_twice_restores(blank(), x, y, sprite);
}

/// `Fx33` leaves the hundreds, tens and ones of `Vx` at `I`, `I + 1` and
/// `I + 2`, and those three digits make up `Vx`.
pub proof fn lemma_bcd(m: Machine, word: u16, draw_slot: bool, random: u8)
    requires
        m.wf(),
        digit(word, 3) == 0xF,
        word % 0x100 == 0x33,
    ensures
        ({
            let value = m.v[digit(word, 2) as int];
            let after = m.execute(decoded(word), draw_slot, random);
            let hundreds = after.byte_at(m.i as int);
            let tens = after.byte_at(m.i + 1);
            let ones = after.byte_at(m.i + 2);
            &&& hundreds == value / 100
            &&& tens == (value / 10) % 10
            &&& ones == value % 10
            &&& hundreds * 100 + tens * 10 + ones == value
        }),
{
    lemma_low_digits(word);
    let x = digit(word, 2);
    assert(decoded(word) == (Instruction::LdBVx { x }));
    let after = m.ld_b_vx(x);
    assert(after == m.execute(decoded(word), draw_slot, random));
    let a0 = m.i as int % 4096;
    let a1 = (m.i + 1) % 4096;
    let a2 = (m.i + 2) % 4096;
    assert(a0 != a1 && a1 != a2 && a0 != a2);
}

/// `Fx55` and `Fx65` leave `I + x + 1` in `I`, wrapped around `0xFFFF`, on a
/// machine that was not told to leave `I` alone.
pub proof fn lemma_index_moves(m: Machine, word: u16, draw_slot: bool, random: u8)
    requires
        m.wf(),
        m.index_increment,
        digit(word, 3) == 0xF,
        word % 0x100 == 0x55 || word % 0x100 == 0x65,
    ensures
        m.execute(decoded(word), draw_slot, random).i == wrap16(m.i + digit(word, 2) + 1),
{
    lemma_low_digits(word);
    let x = digit(word, 2);
    if word % 0x100 == 0x55 {
        assert(decoded(word) == (Instruction::LdIVx { x }));
    } else {
        assert(decoded(word) == (Instruction::LdVxI { x }));
    }
}

/// `Fx55` puts `Vk` at `I + k` for every `k` up to `x`, and `Fx65`, with `I`
/// set back to where it was, then reads the same values back.
pub proof fn lemma_store_then_load(m: Machine, x: u8, k: int)
    requires
        m.wf(),
        x < 16,
        0 <= k <= x,
    ensures
        m.ld_i_vx(x).memory[(m.i + k) % 4096] == m.v[k],
        m.ld_i_vx(x).ld_i(m.i).ld_vx_i(x).v[k] == m.v[k],
{
    assert(((m.i + k) % 4096 - m.i) % 4096 == k);
}

/// A jump to its own address halts the interpreter, with the program
/// counter on the jump.
pub proof fn lemma_self_jump_pauses(m: Machine, draw_slot: bool, random: u8)
    requires
        m.wf(),
        digit(m.next_instruction(), 3) == 0x1,
        m.next_instruction() % 0x1000 == m.pc,
    ensures
        m.step(draw_slot, random).paused,
        m.step(draw_slot, random).pc == m.pc,
{
    let word = m.next_instruction();
    let addr = (word as int % 0x1000) as u16;
    assert(decoded(word) == (Instruction::Jp { addr }));
    lemma_rewind(m.pc);
    assert(m.step(draw_slot, random) == m.advanced().jp(addr));
}

/// Nothing happens in the instruction slots of a halted machine.
pub proof fn lemma_paused_slots(m: Machine, randoms: Seq<u8>, slots: nat)
    requires
        m.paused,
    ensures
        m.after_slots(randoms, slots) == m,
    decreases slots,
{
    if slots > 0 {
        lemma_paused_slots(m, randoms, (slots - 1) as nat);
    }
}

/// A cycle leaves a halted machine exactly as it is.
pub proof fn lemma_paused_cycle(m: Machine, randoms: Seq<u8>)
    requires
        m.paused,
    ensures
        m.cycle(randoms) == m,
{
    lemma_paused_slots(m, randoms, 10);
}

/// A running machine at a key-wait instruction, with no key released, is
/// after any number of instruction slots where it was, and waiting.
pub proof fn lemma_key_wait_slots(m: Machine, randoms: Seq<u8>, slots: nat)
    requires
        m.wf(),
        !m.paused,
        digit(m.next_instruction(), 3) == 0xF,
        m.next_instruction() % 0x100 == 0x0A,
        m.keypad.released is None,
        slots > 0,
    ensures
        m.after_slots(randoms, slots) == (Machine { waiting_for_key: true, ..m }),
    decreases slots,
{
    let waiting = Machine { waiting_for_key: true, ..m };
    let word = m.next_instruction();
    let x = digit(word, 2);
    lemma_decoded_key_wait(word);
    lemma_rewind(m.pc);
    assert(m.advanced().ld_vx_k(x) == waiting);
    assert(m.step(slots == 1, randoms[slots - 1]) == waiting);
    if slots > 1 {
        lemma_key_wait_slots(m, randoms, (slots - 1) as nat);
        assert(waiting.next_instruction() == word);
        assert(waiting.advanced().ld_vx_k(x) == waiting);
        assert(waiting.step(slots == 1, randoms[slots - 1]) == waiting);
    }
}

/// A cycle of a running machine at a key-wait instruction, with no key
/// released, leaves the program counter on the instruction: only the timers
/// tick, and the machine is waiting. What the law asks of the machine holds
/// again afterwards, so it holds of any number of cycles.
pub proof fn lemma_key_wait_cycle(m: Machine, randoms: Seq<u8>)
    requires
        m.wf(),
        !m.paused,
        digit(m.next_instruction(), 3) == 0xF,
        m.next_instruction() % 0x100 == 0x0A,
        m.keypad.released is None,
    ensures
        m.cycle(randoms) == (Machine { waiting_for_key: true, ..m }).ticked(),
        m.cycle(randoms).pc == m.pc,
        m.cycle(randoms).next_instruction() == m.next_instruction(),
        m.cycle(randoms).keypad.released is None,
        !m.cycle(randoms).paused,
        m.cycle(randoms).wf(),
{
    lemma_key_wait_slots(m, randoms, 10);
}

/// When a key that was down goes up, the key-wait instruction puts that key
/// in `Vx`, stops waiting and lets the program counter move on.
pub proof fn lemma_key_release_ends_wait(m: Machine, key: u8, draw_slot: bool, random: u8)
    requires
        m.wf(),
        digit(m.next_instruction(), 3) == 0xF,
        m.next_instruction() % 0x100 == 0x0A,
        key < 16,
        m.keypad.keys[key as int],
    ensures
        ({
            let x = digit(m.next_instruction(), 2) as int;
            let after = m.key_event(key, false).step(draw_slot, random);
            &&& after.v[x] == key
            &&& after.pc == wrap16(m.pc + 2)
            &&& !after.waiting_for_key
            &&& after.keypad.released is None
        }),
{
    let word = m.next_instruction();
    let x = digit(word, 2);
    lemma_decoded_key_wait(word);
    let released = m.key_event(key, false);
    assert(released.next_instruction() == word);
    assert(released.keypad.released == Some(key));
    assert(released.step(draw_slot, random) == released.advanced().ld_vx_k(x));
}

/// Every instruction leaves the machine in the shape of one, with at most
/// sixteen return addresses on its stack.
pub proof fn lemma_step_keeps_shape(m: Machine, draw_slot: bool, random: u8)
    requires
        m.wf(),
        m.stack.len() <= 16,
    ensures
        m.step(draw_slot, random).wf(),
        m.step(draw_slot, random).stack.len() <= 16,
{
    crate::instruction::lemma_decoded_wf(m.next_instruction());
}

/// Every cycle leaves the machine in the shape of one, with at most sixteen
/// return addresses on its stack.
pub proof fn lemma_cycle_keeps_shape(m: Machine, randoms: Seq<u8>)
    requires
        m.wf(),
        m.stack.len() <= 16,
    ensures
        m.cycle(randoms).wf(),
        m.cycle(randoms).stack.len() <= 16,
{
    lemma_slots_keep_shape(m, randoms, 10);
}

/// Any number of instruction slots leaves the machine in the shape of one,
/// with at most sixteen return addresses on its stack.
pub proof fn lemma_slots_keep_shape(m: Machine, randoms: Seq<u8>, slots: nat)
    requires
        m.wf(),
        m.stack.len() <= 16,
    ensures
        m.after_slots(randoms, slots).wf(),
        m.after_slots(randoms, slots).stack.len() <= 16,
    decreases slots,
{
    if slots > 0 {
        lemma_slots_keep_shape(m, randoms, (slots - 1) as nat);
        let before = m.after_slots(randoms, (slots - 1) as nat);
        lemma_step_keeps_shape(before, slots == 1, randoms[slots - 1]);
    }
}

} // verus!
