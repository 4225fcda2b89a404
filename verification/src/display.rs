//! The 64x32 monochrome display and the drawing of sprites onto it.

use vstd::prelude::*;

verus! {

/// Width of the display in pixels.
pub const WIDTH: usize = 64;

/// Height of the display in pixels.
pub const HEIGHT: usize = 32;

/// The most rows that a sprite has.
pub const MAX_SPRITE_ROWS: usize = 15;

/// The bit that stands for row `y` in a packed column: the highest bit is
/// row 0.
pub open spec fn row_mask(y: u32) -> u32 {
    0x8000_0000u32 >> y
}

/// Whether row `y` is lit in a packed column.
pub open spec fn column_lit(column: u32, y: u32) -> bool {
    column & row_mask(y) != 0
}

/// The screen that 64 packed columns stand for: `screen[x][y]` says whether
/// the pixel in column `x` and row `y` is lit.
pub open spec fn unpacked(columns: Seq<u32>) -> Seq<Seq<bool>> {
    Seq::new(64, |x: int| Seq::new(32, |y: int| column_lit(columns[x], y as u32)))
}

/// The screen with nothing lit.
pub open spec fn blank() -> Seq<Seq<bool>> {
    Seq::new(64, |x: int| Seq::new(32, |y: int| false))
}

/// `screen` with the pixel at column `x` and row `y` flipped.
pub open spec fn toggled(screen: Seq<Seq<bool>>, x: int, y: int) -> Seq<Seq<bool>> {
    screen.update(x, screen[x].update(y, !screen[x][y]))
}

/// Whether the sprite has a pixel in its row `row` and column `col`. Rows
/// count from the top; column 0 is the highest bit of the row's byte.
pub open spec fn sprite_bit(sprite: Seq<u8>, row: int, col: int) -> bool {
    0 <= row < sprite.len() && 0 <= col < 8 && (sprite[row] >> ((7 - col) as u8)) & 1 == 1
}

/// Whether a sprite drawn at `(x, y)` has a pixel on the screen's pixel
/// `(px, py)`. The sprite's top left corner lies at `(x mod 64, y mod 32)` and
/// what would fall off an edge comes back in at the opposite edge.
pub open spec fn sprite_covers(x: u8, y: u8, sprite: Seq<u8>, px: int, py: int) -> bool {
    sprite_bit(sprite, (py - y) % 32, (px - x) % 64)
}

/// The screen after a sprite was drawn onto it at `(x, y)`: every pixel that
/// the sprite covers is flipped.
pub open spec fn drawn(screen: Seq<Seq<bool>>, x: u8, y: u8, sprite: Seq<u8>) -> Seq<Seq<bool>> {
    Seq::new(
        64,
        |px: int| Seq::new(32, |py: int| screen[px][py] != sprite_covers(x, y, sprite, px, py)),
    )
}

/// Whether drawing a sprite at `(x, y)` turns off a pixel that was lit.
pub open spec fn collides(screen: Seq<Seq<bool>>, x: u8, y: u8, sprite: Seq<u8>) -> bool {
    exists|row: int, col: int|
        sprite_bit(sprite, row, col) && #[trigger] screen[(x + col) % 64][(y + row) % 32]
}

/// Whether `(row, col)` comes before `(r, c)` when a sprite's pixels are
/// visited row by row, each row from the left.
spec fn before(row: int, col: int, r: int, c: int) -> bool {
    row < r || (row == r && col < c)
}

/// `collides`, with only the sprite's pixels before `(r, c)` counted.
#[verifier::opaque]
spec fn collides_before(screen: Seq<Seq<bool>>, x: u8, y: u8, sprite: Seq<u8>, r: int, c: int) -> bool {
    exists|row: int, col: int|
        sprite_bit(sprite, row, col) && before(row, col, r, c) && #[trigger] screen[(x + col)
            % 64][(y + row) % 32]
}

/// `sprite_covers`, with only the sprite's pixels before `(r, c)` counted.
spec fn covers_before(x: u8, y: u8, sprite: Seq<u8>, px: int, py: int, r: int, c: int) -> bool {
    sprite_covers(x, y, sprite, px, py) && before((py - y) % 32, (px - x) % 64, r, c)
}

/// Flipping the bit of row `y` in a packed column changes that row and no
/// other.
proof fn lemma_toggle_bit(column: u32, y: u32, other: u32)
    by (bit_vector)
    requires
        y < 32,
        other < 32,
    ensures
        ((column ^ (0x8000_0000u32 >> y)) & (0x8000_0000u32 >> other) != 0) == ((column & (
        0x8000_0000u32 >> other) != 0) != (y == other)),
{
}

/// No row is lit in a column of zero.
proof fn lemma_zero_is_dark(y: u32)
    by (bit_vector)
    ensures
        0u32 & (0x8000_0000u32 >> y) == 0,
{
}

/// A 64x32 monochrome display.
///
/// ```text
/// +-------------------+
/// |(0,0)        (63,0)|
/// |                   |
/// |(0,31)      (63,31)|
/// +-------------------+
/// ```
///
/// Programs draw on it with sprites: up to fifteen bytes, each one row of
/// eight pixels. The display keeps one 32-bit word per column, the highest bit
/// for the top row. Its view is the screen, 64 columns of 32 pixels:
/// `display@[x][y]` says whether pixel `(x, y)` is lit.
pub struct Display {
    pixels: [u32; 64],
}

impl View for Display {
    type V = Seq<Seq<bool>>;

    closed spec fn view(&self) -> Seq<Seq<bool>> {
        unpacked(self.pixels@)
    }
}

impl Display {
    /// The screen always has 64 columns of 32 pixels.
    pub proof fn lemma_dimensions(&self)
        ensures
            self@.len() == 64,
            forall|x: int| 0 <= x < 64 ==> (#[trigger] self@[x]).len() == 32,
    {
    }

    /// A display with nothing lit.
    pub fn new() -> (display: Self)
        ensures
            display@ == blank(),
    {
        let display = Self { pixels: [0; 64] };
        proof {
            assert forall|x: int, y: int| 0 <= x < 64 && 0 <= y < 32 implies !column_lit(
                #[trigger] display.pixels@[x],
                #[trigger] (y as u32),
            ) by {
                lemma_zero_is_dark(y as u32);
            }
            assert(display@ =~~= blank());
        }
        display
    }

    /// Turns every pixel off.
    pub fn clear(&mut self)
        ensures
            final(self)@ == blank(),
    {
        self.pixels = [0; 64];
        proof {
            assert forall|x: int, y: int| 0 <= x < 64 && 0 <= y < 32 implies !column_lit(
                #[trigger] self.pixels@[x],
                #[trigger] (y as u32),
            ) by {
                lemma_zero_is_dark(y as u32);
            }
            assert(self@ =~~= blank());
        }
    }

    /// Draws a sprite with its top left corner at `(x mod 64, y mod 32)`,
    /// one byte per row, by flipping every pixel that the sprite covers.
    /// Pixels that would fall off an edge come back in at the opposite edge.
    /// Returns whether the drawing turned off a pixel that was lit.
    pub fn draw_sprite(&mut self, x: u8, y: u8, sprite: &[u8]) -> (collided: bool)
        requires
            sprite@.len() <= MAX_SPRITE_ROWS,
        ensures
            final(self)@ == drawn(old(self)@, x, y, sprite@),
            collided == collides(old(self)@, x, y, sprite@),
    {
        let mut collided = false;
        let origin_x: u8 = x % 64;
        let origin_y: u8 = y % 32;
        let rows = sprite.len();
        let mut r: usize = 0;
        proof {
            self.lemma_dimensions();
            lemma_draw_start(self@, x, y, sprite@);
            lemma_collides_start(self@, x, y, sprite@);
        }
        while r < rows
            invariant
                r <= rows,
                rows == sprite@.len(),
                rows <= 15,
                origin_x == x % 64,
                origin_y == y % 32,
                partly_drawn(self@, old(self)@, x, y, sprite@, r as int, 0),
                collided == collides_before(old(self)@, x, y, sprite@, r as int, 0),
            decreases rows - r,
        {
            let byte = sprite[r];
            let mut c: u8 = 0;
            while c < 8
                invariant
                    c <= 8,
                    r < rows,
                    rows == sprite@.len(),
                    rows <= 15,
                    byte == sprite@[r as int],
                    origin_x == x % 64,
                    origin_y == y % 32,
                    partly_drawn(self@, old(self)@, x, y, sprite@, r as int, c as int),
                    collided == collides_before(old(self)@, x, y, sprite@, r as int, c as int),
                decreases 8 - c,
            {
                let bit = (byte >> (7 - c)) & 1;
                let px: u8 = (origin_x + c) % 64;
                let py: u8 = ((origin_y as usize + r) % 32) as u8;
                proof {
                    assert(px as int == (x + c) % 64);
                    assert(py as int == (y + r) % 32);
                    assert(sprite_bit(sprite@, r as int, c as int) == (bit == 1));
                    lemma_draw_step(self@, old(self)@, x, y, sprite@, r as int, c as int);
                    lemma_collides_step(old(self)@, x, y, sprite@, r as int, c as int);
                }
                if bit == 1 {
                    if self.draw_pixel(px, py) {
                        collided = true;
                    }
                }
                c += 1;
            }
            proof {
                lemma_draw_row(self@, old(self)@, x, y, sprite@, r as int);
                lemma_collides_row(old(self)@, x, y, sprite@, r as int);
            }
            r += 1;
        }
        proof {
            lemma_draw_all(self@, old(self)@, x, y, sprite@);
            lemma_collides_all(old(self)@, x, y, sprite@);
        }
        collided
    }

    /// Flips the pixel at `(x mod 64, y mod 32)` and returns whether that
    /// turned it off.
    pub fn draw_pixel(&mut self, x: u8, y: u8) -> (collided: bool)
        ensures
            final(self)@ == toggled(old(self)@, x as int % 64, y as int % 32),
            collided == old(self)@[x as int % 64][y as int % 32],
    {
        let column: usize = (x % 64) as usize;
        let row: u32 = (y % 32) as u32;
        let mask: u32 = 0x8000_0000u32 >> row;
        let was_lit = self.pixels[column] & mask != 0;
        self.pixels[column] = self.pixels[column] ^ mask;
        proof {
            let before_column = old(self).pixels@[column as int];
            assert forall|other: int| 0 <= other < 32 implies column_lit(
                before_column ^ mask,
                #[trigger] (other as u32),
            ) == (column_lit(before_column, other as u32) != (other == row)) by {
                lemma_toggle_bit(before_column, row, other as u32);
            }
            assert(self@ =~~= toggled(old(self)@, x as int % 64, y as int % 32));
        }
        was_lit
    }

    /// The screen as 64 packed columns, one 32-bit word each, the highest bit
    /// for the top row.
    pub fn pixels(&self) -> (columns: [u32; 64])
        ensures
            unpacked(columns@) == self@,
    {
        self.pixels
    }

    /// Whether the pixel at `(x mod 64, y mod 32)` is lit.
    pub fn is_lit(&self, x: u8, y: u8) -> (lit: bool)
        ensures
            lit == self@[x as int % 64][y as int % 32],
    {
        let row: u32 = (y % 32) as u32;
        self.pixels[(x % 64) as usize] & (0x8000_0000u32 >> row) != 0
    }
}

/// Whether `screen` is `start` with the sprite's pixels before `(r, c)`
/// drawn onto it.
#[verifier::opaque]
spec fn partly_drawn(
    screen: Seq<Seq<bool>>,
    start: Seq<Seq<bool>>,
    x: u8,
    y: u8,
    sprite: Seq<u8>,
    r: int,
    c: int,
) -> bool {
    &&& screen.len() == 64
    &&& forall|px: int| 0 <= px < 64 ==> (#[trigger] screen[px]).len() == 32
    &&& forall|px: int, py: int|
        0 <= px < 64 && 0 <= py < 32 ==> #[trigger] screen[px][py] == (start[px][py]
            != covers_before(x, y, sprite, px, py, r, c))
}

/// The sprite's pixel `(r, c)` lies on exactly one pixel of the screen, and
/// counting it adds that pixel to what is covered.
proof fn lemma_covers_step(x: u8, y: u8, sprite: Seq<u8>, r: int, c: int, px: int, py: int)
    requires
        0 <= r < sprite.len() <= 32,
        0 <= c < 8,
        0 <= px < 64,
        0 <= py < 32,
    ensures
        covers_before(x, y, sprite, px, py, r, c + 1) == (covers_before(x, y, sprite, px, py, r, c)
            || (sprite_bit(sprite, r, c) && px == (x + c) % 64 && py == (y + r) % 32)),
        px == (x + c) % 64 && py == (y + r) % 32 ==> !covers_before(x, y, sprite, px, py, r, c),
{
    let col = (px - x) % 64;
    let row = (py - y) % 32;
    assert((col == c) == (px == (x + c) % 64));
    assert((row == r) == (py == (y + r) % 32));
}

/// Before anything is drawn, the screen is as it started.
proof fn lemma_draw_start(start: Seq<Seq<bool>>, x: u8, y: u8, sprite: Seq<u8>)
    requires
        start.len() == 64,
        forall|px: int| 0 <= px < 64 ==> (#[trigger] start[px]).len() == 32,
    ensures
        partly_drawn(start, start, x, y, sprite, 0, 0),
{
    reveal(partly_drawn);
    assert forall|px: int, py: int| 0 <= px < 64 && 0 <= py < 32 implies !covers_before(
        x,
        y,
        sprite,
        px,
        py,
        0,
        0,
    ) by {}
}

/// Drawing the sprite's pixel `(r, c)`, if it has one there, takes the screen
/// from the pixels before `(r, c)` to those before `(r, c + 1)`.
proof fn lemma_draw_step(
    screen: Seq<Seq<bool>>,
    start: Seq<Seq<bool>>,
    x: u8,
    y: u8,
    sprite: Seq<u8>,
    r: int,
    c: int,
)
    requires
        partly_drawn(screen, start, x, y, sprite, r, c),
        0 <= r < sprite.len() <= 32,
        0 <= c < 8,
    ensures
        screen[(x + c) % 64][(y + r) % 32] == start[(x + c) % 64][(y + r) % 32],
        sprite_bit(sprite, r, c) ==> partly_drawn(
            toggled(screen, (x + c) % 64, (y + r) % 32),
            start,
            x,
            y,
            sprite,
            r,
            c + 1,
        ),
        !sprite_bit(sprite, r, c) ==> partly_drawn(screen, start, x, y, sprite, r, c + 1),
{
    reveal(partly_drawn);
    let tx = (x + c) % 64;
    let ty = (y + r) % 32;
    lemma_covers_step(x, y, sprite, r, c, tx, ty);
    assert(screen[tx][ty] == start[tx][ty]);
    let next = if sprite_bit(sprite, r, c) {
        toggled(screen, tx, ty)
    } else {
        screen
    };
    assert forall|px: int| 0 <= px < 64 implies (#[trigger] next[px]).len() == 32 by {}
    assert forall|px: int, py: int| 0 <= px < 64 && 0 <= py < 32 implies #[trigger] next[px][py]
        == (start[px][py] != covers_before(x, y, sprite, px, py, r, c + 1)) by {
        lemma_covers_step(x, y, sprite, r, c, px, py);
        assert(screen[px][py] == (start[px][py] != covers_before(x, y, sprite, px, py, r, c)));
    }
}

/// A row that was drawn to its end is drawn whole.
proof fn lemma_draw_row(
    screen: Seq<Seq<bool>>,
    start: Seq<Seq<bool>>,
    x: u8,
    y: u8,
    sprite: Seq<u8>,
    r: int,
)
    requires
        partly_drawn(screen, start, x, y, sprite, r, 8),
    ensures
        partly_drawn(screen, start, x, y, sprite, r + 1, 0),
{
    reveal(partly_drawn);
    assert forall|px: int, py: int| 0 <= px < 64 && 0 <= py < 32 implies #[trigger] screen[px][py]
        == (start[px][py] != covers_before(x, y, sprite, px, py, r + 1, 0)) by {
        assert(screen[px][py] == (start[px][py] != covers_before(x, y, sprite, px, py, r, 8)));
    }
}

/// When every row was drawn, the sprite was.
proof fn lemma_draw_all(screen: Seq<Seq<bool>>, start: Seq<Seq<bool>>, x: u8, y: u8, sprite: Seq<u8>)
    requires
        partly_drawn(screen, start, x, y, sprite, sprite.len() as int, 0),
    ensures
        screen == drawn(start, x, y, sprite),
{
    reveal(partly_drawn);
    let whole = drawn(start, x, y, sprite);
    assert forall|px: int| 0 <= px < 64 implies #[trigger] screen[px] == whole[px] by {
        assert forall|py: int| 0 <= py < 32 implies #[trigger] screen[px][py] == whole[px][py] by {
            assert(screen[px][py] == (start[px][py] != covers_before(
                x,
                y,
                sprite,
                px,
                py,
                sprite.len() as int,
                0,
            )));
        }
        assert(screen[px] =~= whole[px]);
    }
    assert(screen =~= whole);
}

/// Before any pixel of the sprite is counted, nothing has collided.
proof fn lemma_collides_start(screen: Seq<Seq<bool>>, x: u8, y: u8, sprite: Seq<u8>)
    ensures
        !collides_before(screen, x, y, sprite, 0, 0),
{
    reveal(collides_before);
}

/// Counting one more pixel of the sprite adds that pixel's collision.
proof fn lemma_collides_step(screen: Seq<Seq<bool>>, x: u8, y: u8, sprite: Seq<u8>, r: int, c: int)
    requires
        0 <= r < sprite.len(),
        0 <= c < 8,
    ensures
        collides_before(screen, x, y, sprite, r, c + 1) == (collides_before(
            screen,
            x,
            y,
            sprite,
            r,
            c,
        ) || (sprite_bit(sprite, r, c) && screen[(x + c) % 64][(y + r) % 32])),
{
    reveal(collides_before);
    if collides_before(screen, x, y, sprite, r, c + 1) {
        let (row, col) = choose|row: int, col: int|
            sprite_bit(sprite, row, col) && before(row, col, r, c + 1) && #[trigger] screen[(x
                + col) % 64][(y + row) % 32];
        if before(row, col, r, c) {
            assert(sprite_bit(sprite, row, col) && before(row, col, r, c) && screen[(x + col)
                % 64][(y + row) % 32]);
        }
    }
    if collides_before(screen, x, y, sprite, r, c) {
        let (row, col) = choose|row: int, col: int|
            sprite_bit(sprite, row, col) && before(row, col, r, c) && #[trigger] screen[(x + col)
                % 64][(y + row) % 32];
        assert(sprite_bit(sprite, row, col) && before(row, col, r, c + 1) && screen[(x + col)
            % 64][(y + row) % 32]);
    }
    if sprite_bit(sprite, r, c) && screen[(x + c) % 64][(y + r) % 32] {
        assert(sprite_bit(sprite, r, c) && before(r, c, r, c + 1) && screen[(x + c) % 64][(y + r)
            % 32]);
    }
}

/// A row that was counted to its end is counted whole.
proof fn lemma_collides_row(screen: Seq<Seq<bool>>, x: u8, y: u8, sprite: Seq<u8>, r: int)
    ensures
        collides_before(screen, x, y, sprite, r, 8) == collides_before(screen, x, y, sprite, r + 1, 0),
{
    reveal(collides_before);
    if collides_before(screen, x, y, sprite, r, 8) {
        let (row, col) = choose|row: int, col: int|
            sprite_bit(sprite, row, col) && before(row, col, r, 8) && #[trigger] screen[(x + col)
                % 64][(y + row) % 32];
        assert(sprite_bit(sprite, row, col) && before(row, col, r + 1, 0) && screen[(x + col)
            % 64][(y + row) % 32]);
    }
    if collides_before(screen, x, y, sprite, r + 1, 0) {
        let (row, col) = choose|row: int, col: int|
            sprite_bit(sprite, row, col) && before(row, col, r + 1, 0) && #[trigger] screen[(x
                + col) % 64][(y + row) % 32];
        assert(sprite_bit(sprite, row, col) && before(row, col, r, 8) && screen[(x + col)
            % 64][(y + row) % 32]);
    }
}

/// When every row was counted, every pixel of the sprite was.
proof fn lemma_collides_all(screen: Seq<Seq<bool>>, x: u8, y: u8, sprite: Seq<u8>)
    ensures
        collides_before(screen, x, y, sprite, sprite.len() as int, 0) == collides(
            screen,
            x,
            y,
            sprite,
        ),
{
    reveal(collides_before);
    if collides_before(screen, x, y, sprite, sprite.len() as int, 0) {
        let (row, col) = choose|row: int, col: int|
            sprite_bit(sprite, row, col) && before(row, col, sprite.len() as int, 0)
                && #[trigger] screen[(x + col) % 64][(y + row) % 32];
        assert(sprite_bit(sprite, row, col) && screen[(x + col) % 64][(y + row) % 32]);
    }
    if collides(screen, x, y, sprite) {
        let (row, col) = choose|row: int, col: int|
            sprite_bit(sprite, row, col) && #[trigger] screen[(x + col) % 64][(y + row) % 32];
        assert(sprite_bit(sprite, row, col) && before(row, col, sprite.len() as int, 0) && screen[(
        x + col) % 64][(y + row) % 32]);
    }
}

} // verus!
