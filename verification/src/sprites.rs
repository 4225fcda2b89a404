//! The built-in font: one 4x5 sprite for each hexadecimal digit.

use vstd::prelude::*;
use crate::memory::Memory;

verus! {

/// Rows in one font sprite.
pub const SPRITE_HEIGHT: u16 = 5;

/// The font: sixteen sprites of five rows each, digit `d` at offset `5 * d`.
/// The four leftmost bits of a row are its pixels.
pub open spec fn font() -> Seq<u8> {
    seq![
        0xF0u8, 0x90, 0x90, 0x90, 0xF0,
        0x20, 0x60, 0x20, 0x20, 0x70,
        0xF0, 0x10, 0xF0, 0x80, 0xF0,
        0xF0, 0x10, 0xF0, 0x10, 0xF0,
        0x90, 0x90, 0xF0, 0x10, 0x10,
        0xF0, 0x80, 0xF0, 0x10, 0xF0,
        0xF0, 0x80, 0xF0, 0x90, 0xF0,
        0xF0, 0x10, 0x20, 0x40, 0x40,
        0xF0, 0x90, 0xF0, 0x90, 0xF0,
        0xF0, 0x90, 0xF0, 0x10, 0xF0,
        0xF0, 0x90, 0xF0, 0x90, 0x90,
        0xE0, 0x90, 0xE0, 0x90, 0xE0,
        0xF0, 0x80, 0x80, 0x80, 0xF0,
        0xE0, 0x90, 0x90, 0x90, 0xE0,
        0xF0, 0x80, 0xF0, 0x80, 0xF0,
        0xF0, 0x80, 0xF0, 0x80, 0x80,
    ]
}

/// Writes the font into the first eighty bytes of `memory`.
pub fn load_default_sprites(memory: &mut Memory)
    ensures
        final(memory)@.len() == old(memory)@.len(),
        forall|a: int| 0 <= a < 80 ==> #[trigger] final(memory)@[a] == font()[a],
        forall|a: int| 80 <= a < 4096 ==> #[trigger] final(memory)@[a] == old(memory)@[a],
{
    let sprites: [u8; 80] = [
        0xF0, 0x90, 0x90, 0x90, 0xF0,
        0x20, 0x60, 0x20, 0x20, 0x70,
        0xF0, 0x10, 0xF0, 0x80, 0xF0,
        0xF0, 0x10, 0xF0, 0x10, 0xF0,
        0x90, 0x90, 0xF0, 0x10, 0x10,
        0xF0, 0x80, 0xF0, 0x10, 0xF0,
        0xF0, 0x80, 0xF0, 0x90, 0xF0,
        0xF0, 0x10, 0x20, 0x40, 0x40,
        0xF0, 0x90, 0xF0, 0x90, 0xF0,
        0xF0, 0x90, 0xF0, 0x10, 0xF0,
        0xF0, 0x90, 0xF0, 0x90, 0x90,
        0xE0, 0x90, 0xE0, 0x90, 0xE0,
        0xF0, 0x80, 0x80, 0x80, 0xF0,
        0xE0, 0x90, 0x90, 0x90, 0xE0,
        0xF0, 0x80, 0xF0, 0x80, 0xF0,
        0xF0, 0x80, 0xF0, 0x80, 0x80,
    ];
    assert(sprites@ =~= font());
    proof {
        memory.lemma_size();
    }
    let mut a: u16 = 0;
    while a < 80
        invariant
            a <= 80,
            sprites@ == font(),
            memory@.len() == 4096,
            forall|b: int| 0 <= b < a ==> #[trigger] memory@[b] == font()[b],
            forall|b: int| a <= b < 4096 ==> #[trigger] memory@[b] == old(memory)@[b],
        decreases 80 - a,
    {
        memory.write(a, sprites[a as usize]);
        a += 1;
    }
}

} // verus!
