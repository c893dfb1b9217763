//! The framebuffer geometry, the built-in font and the sprite blitter.

use vstd::prelude::*;

verus! {

/// Number of framebuffer columns.
pub const WIDTH: u16 = 64;

/// Number of framebuffer rows.
pub const HEIGHT: u16 = 32;

/// Number of bytes of one font glyph.
pub const GLYPH_SIZE: u16 = 5;

/// The built-in font: one glyph of five rows for each hexadecimal digit, in
/// digit order, each row in the upper four bits of its byte.
pub const SPRITES: [u8; 80] = [
    0xF0, 0x90, 0x90, 0x90, 0xF0, // 0
    0x20, 0x60, 0x20, 0x20, 0x70, // 1
    0xF0, 0x10, 0xF0, 0x80, 0xF0, // 2
    0xF0, 0x10, 0xF0, 0x10, 0xF0, // 3
    0x90, 0x90, 0xF0, 0x10, 0x10, // 4
    0xF0, 0x80, 0xF0, 0x10, 0xF0, // 5
    0xF0, 0x80, 0xF0, 0x90, 0xF0, // 6
    0xF0, 0x10, 0x20, 0x40, 0x40, // 7
    0xF0, 0x90, 0xF0, 0x90, 0xF0, // 8
    0xF0, 0x90, 0xF0, 0x10, 0xF0, // 9
    0xF0, 0x90, 0xF0, 0x90, 0x90, // A
    0xE0, 0x90, 0xE0, 0x90, 0xE0, // B
    0xF0, 0x80, 0x80, 0x80, 0xF0, // C
    0xE0, 0x90, 0x90, 0x90, 0xE0, // D
    0xF0, 0x80, 0xF0, 0x80, 0xF0, // E
    0xF0, 0x80, 0xF0, 0x80, 0x80, // F
];

/// The bytes of the built-in font, glyph after glyph.
pub open spec fn font() -> Seq<u8> {
    SPRITES@
}

/// The built-in font.
pub fn get_sprites() -> (sprites: &'static [u8])
    ensures
        sprites@ == font(),
{
    &SPRITES
}

/// Whether the bit in column `col` of a sprite row is set. Column 0 is the
/// most significant bit of the byte, column 7 the least significant.
pub open spec fn sprite_bit(row_byte: u8, col: int) -> bool {
    (row_byte as int / column_weight(col)) % 2 == 1
}

/// The value of the bit in column `col` of a sprite row.
pub open spec fn column_weight(col: int) -> int {
    if col == 0 {
        128
    } else if col == 1 {
        64
    } else if col == 2 {
        32
    } else if col == 3 {
        16
    } else if col == 4 {
        8
    } else if col == 5 {
        4
    } else if col == 6 {
        2
    } else {
        1
    }
}

/// The framebuffer cell that row `row`, column `col` of a sprite drawn at
/// `(x0, y0)` lands on. The column wraps at the right edge and the row at the
/// bottom edge, so the cell always lies on the screen.
pub open spec fn pixel_index(x0: int, y0: int, row: int, col: int) -> int {
    (x0 + col) % (WIDTH as int) + ((y0 + row) % (HEIGHT as int)) * WIDTH
}

/// A sprite's bits are visited row by row, each row from its most
/// significant bit: step `k` is column `k % 8` of row `k / 8`. This is
/// whether the bit of step `k` is set.
pub open spec fn step_bit(sprite: Seq<u8>, k: int) -> bool {
    sprite_bit(sprite[k / 8], k % 8)
}

/// The framebuffer cell that step `k` of a sprite drawn at `(x0, y0)` lands on.
pub open spec fn step_cell(x0: int, y0: int, k: int) -> int {
    pixel_index(x0, y0, k / 8, k % 8)
}

/// `screen` with the cell at `cell` inverted.
pub open spec fn toggle(screen: Seq<bool>, cell: int) -> Seq<bool> {
    screen.update(cell, !screen[cell])
}

/// The framebuffer after the first `steps` bits of `sprite` have been drawn
/// at `(x0, y0)`: each set bit inverts the cell it lands on, each clear bit
/// leaves the framebuffer alone.
pub open spec fn blit_screen(screen: Seq<bool>, sprite: Seq<u8>, x0: int, y0: int, steps: nat) -> Seq<
    bool,
>
    decreases steps,
{
    if steps == 0 {
        screen
    } else {
        let before = blit_screen(screen, sprite, x0, y0, (steps - 1) as nat);
        if step_bit(sprite, steps - 1) {
            toggle(before, step_cell(x0, y0, steps - 1))
        } else {
            before
        }
    }
}

/// Whether one of the first `steps` bits of `sprite`, drawn at `(x0, y0)`,
/// is set and lands on a cell that is set at the moment it is drawn.
pub open spec fn blit_collides(screen: Seq<bool>, sprite: Seq<u8>, x0: int, y0: int, steps: nat) -> bool
    decreases steps,
{
    if steps == 0 {
        false
    } else {
        let before = blit_screen(screen, sprite, x0, y0, (steps - 1) as nat);
        blit_collides(screen, sprite, x0, y0, (steps - 1) as nat) || (step_bit(sprite, steps - 1)
            && before[step_cell(x0, y0, steps - 1)])
    }
}

/// The rows of the sprite of `height` bytes that starts at `base` in `memory`.
pub open spec fn sprite_rows(memory: Seq<u8>, base: int, height: int) -> Seq<u8> {
    memory.subrange(base, base + height)
}

/// The framebuffer after the whole of `sprite` has been drawn at `(x0, y0)`.
pub open spec fn blitted(screen: Seq<bool>, sprite: Seq<u8>, x0: int, y0: int) -> Seq<bool> {
    blit_screen(screen, sprite, x0, y0, 8 * sprite.len())
}

/// Whether drawing the whole of `sprite` at `(x0, y0)` collides.
pub open spec fn collided(screen: Seq<bool>, sprite: Seq<u8>, x0: int, y0: int) -> bool {
    blit_collides(screen, sprite, x0, y0, 8 * sprite.len())
}

/// Whether an odd number of the set bits among the first `steps` bits of
/// `sprite`, drawn at `(x0, y0)`, land on `cell`.
pub open spec fn toggled(sprite: Seq<u8>, x0: int, y0: int, steps: nat, cell: int) -> bool
    decreases steps,
{
    if steps == 0 {
        false
    } else {
        toggled(sprite, x0, y0, (steps - 1) as nat, cell) != (step_bit(sprite, steps - 1)
            && step_cell(x0, y0, steps - 1) == cell)
    }
}

/// Whether one of the first `steps` bits of `sprite`, drawn at `(x0, y0)`,
/// is set and lands on a cell of `screen` whose state is `lit`.
pub open spec fn lands_on(
    screen: Seq<bool>,
    sprite: Seq<u8>,
    x0: int,
    y0: int,
    steps: nat,
    lit: bool,
) -> bool {
    exists|k: int|
        0 <= k < steps && #[trigger] step_bit(sprite, k) && screen[step_cell(x0, y0, k)] == lit
}

proof fn lemma_sprite_bit(row_byte: u8, col: u8)
    by (bit_vector)
    requires
        col < 8,
    ensures
        ((row_byte >> ((7 - col) as u8)) & 0x01 == 1) == ((row_byte / (if col == 0 {
            128u8
        } else if col == 1 {
            64u8
        } else if col == 2 {
            32u8
        } else if col == 3 {
            16u8
        } else if col == 4 {
            8u8
        } else if col == 5 {
            4u8
        } else if col == 6 {
            2u8
        } else {
            1u8
        })) % 2 == 1),
{
}

/// Blitting keeps the framebuffer's size.
pub proof fn lemma_blit_len(screen: Seq<bool>, sprite: Seq<u8>, x0: int, y0: int, steps: nat)
    requires
        screen.len() == WIDTH * HEIGHT,
    ensures
        blit_screen(screen, sprite, x0, y0, steps).len() == screen.len(),
    decreases steps,
{
    if steps > 0 {
        lemma_blit_len(screen, sprite, x0, y0, (steps - 1) as nat);
    }
}

/// Draws the sprite of `bytes_to_read` rows stored at `base_address` in
/// `memory` onto `screen` at `(start_x, start_y)` and reports whether a set
/// bit landed on a cell that was set.
pub fn update_screen(
    start_x: u16,
    start_y: u16,
    bytes_to_read: u16,
    base_address: u16,
    memory: &Vec<u8>,
    screen: &mut Vec<bool>,
) -> (collision: bool)
    requires
        old(screen).len() == WIDTH * HEIGHT,
        base_address + bytes_to_read <= memory.len(),
    ensures
        final(screen)@ == blitted(
            old(screen)@,
            sprite_rows(memory@, base_address as int, bytes_to_read as int),
            start_x as int,
            start_y as int,
        ),
        collision == collided(
            old(screen)@,
            sprite_rows(memory@, base_address as int, bytes_to_read as int),
            start_x as int,
            start_y as int,
        ),
        final(screen).len() == old(screen).len(),
{
    let ghost sprite = sprite_rows(memory@, base_address as int, bytes_to_read as int);
    let ghost x0 = start_x as int;
    let ghost y0 = start_y as int;
    let mut collision = false;
    let mut row: u16 = 0;
    while row < bytes_to_read
        invariant
            row <= bytes_to_read,
            base_address + bytes_to_read <= memory.len(),
            screen.len() == WIDTH * HEIGHT,
            sprite == sprite_rows(memory@, base_address as int, bytes_to_read as int),
            x0 == start_x,
            y0 == start_y,
            screen@ == blit_screen(old(screen)@, sprite, x0, y0, (8 * row) as nat),
            collision == blit_collides(old(screen)@, sprite, x0, y0, (8 * row) as nat),
        decreases bytes_to_read - row,
    {
        let row_byte: u8 = memory[base_address as usize + row as usize];
        let y: usize = (start_y as usize + row as usize) % (HEIGHT as usize);
        let mut col: u8 = 0;
        while col < 8
            invariant
                col <= 8,
                row < bytes_to_read,
                screen.len() == WIDTH * HEIGHT,
                sprite.len() == bytes_to_read,
                row_byte == sprite[row as int],
                x0 == start_x,
                y0 == start_y,
                y == (y0 + row) % (HEIGHT as int),
                screen@ == blit_screen(old(screen)@, sprite, x0, y0, (8 * row + col) as nat),
                collision == blit_collides(old(screen)@, sprite, x0, y0, (8 * row + col) as nat),
            decreases 8 - col,
        {
            let x: usize = (start_x as usize + col as usize) % (WIDTH as usize);
            let cell: usize = x + y * (WIDTH as usize);
            let bit = (row_byte >> (7 - col)) & 0x01 == 1;
            proof {
                lemma_sprite_bit(row_byte, col);
                let k = 8 * row + col;
                assert(k / 8 == row && k % 8 == col);
            }
            if bit {
                let existing = screen[cell];
                screen[cell] = !existing;
                if existing {
                    collision = true;
                }
            }
            col += 1;
        }
        row += 1;
    }
    collision
}

/// Cell by cell, blitting inverts exactly the cells that an odd number of
/// set bits land on.
pub proof fn lemma_blit_cell(
    screen: Seq<bool>,
    sprite: Seq<u8>,
    x0: int,
    y0: int,
    steps: nat,
    cell: int,
)
    requires
        screen.len() == WIDTH * HEIGHT,
        0 <= cell < screen.len(),
    ensures
        blit_screen(screen, sprite, x0, y0, steps)[cell] == (screen[cell] != toggled(
            sprite,
            x0,
            y0,
            steps,
            cell,
        )),
    decreases steps,
{
    if steps > 0 {
        lemma_blit_cell(screen, sprite, x0, y0, (steps - 1) as nat, cell);
        lemma_blit_len(screen, sprite, x0, y0, (steps - 1) as nat);
    }
}

proof fn lemma_blank_rows(screen: Seq<bool>, sprite: Seq<u8>, x0: int, y0: int, steps: nat)
    requires
        forall|row: int| 0 <= row < sprite.len() ==> sprite[row] == 0,
        steps <= 8 * sprite.len(),
    ensures
        blit_screen(screen, sprite, x0, y0, steps) == screen,
        !blit_collides(screen, sprite, x0, y0, steps),
    decreases steps,
{
    if steps > 0 {
        lemma_blank_rows(screen, sprite, x0, y0, (steps - 1) as nat);
        assert(sprite[(steps - 1) / 8] == 0);
    }
}

/// A sprite whose bits are all clear changes nothing and never collides,
/// wherever it is drawn.
pub proof fn lemma_blit_blank_sprite(screen: Seq<bool>, sprite: Seq<u8>, x0: int, y0: int)
    requires
        forall|row: int| 0 <= row < sprite.len() ==> sprite[row] == 0,
    ensures
        blitted(screen, sprite, x0, y0) == screen,
        !collided(screen, sprite, x0, y0),
{
    lemma_blank_rows(screen, sprite, x0, y0, 8 * sprite.len());
}

/// Drawing the same sprite at the same place twice in a row gives back the
/// framebuffer as it was before the first draw.
pub proof fn lemma_blit_twice_restores(screen: Seq<bool>, sprite: Seq<u8>, x0: int, y0: int)
    requires
        screen.len() == WIDTH * HEIGHT,
    ensures
        blitted(blitted(screen, sprite, x0, y0), sprite, x0, y0) == screen,
{
    let steps = 8 * sprite.len();
    let once = blitted(screen, sprite, x0, y0);
    let twice = blitted(once, sprite, x0, y0);
    lemma_blit_len(screen, sprite, x0, y0, steps);
    lemma_blit_len(once, sprite, x0, y0, steps);
    assert forall|cell: int| 0 <= cell < screen.len() implies twice[cell] == screen[cell] by {
        lemma_blit_cell(screen, sprite, x0, y0, steps, cell);
        lemma_blit_cell(once, sprite, x0, y0, steps, cell);
    }
    assert(twice =~= screen);
}

/// Within a sprite no taller than the screen, two different bits land on
/// two different cells.
pub proof fn lemma_step_cells_distinct(x0: int, y0: int, j: int, k: int)
    requires
        0 <= j < 8 * HEIGHT,
        0 <= k < 8 * HEIGHT,
        j != k,
    ensures
        step_cell(x0, y0, j) != step_cell(x0, y0, k),
{
    let (row_j, col_j) = (j / 8, j % 8);
    let (row_k, col_k) = (k / 8, k % 8);
    if row_j != row_k {
        assert((y0 + row_j) % 32 != (y0 + row_k) % 32);
    } else {
        assert((x0 + col_j) % 64 != (x0 + col_k) % 64);
    }
}

/// Within a sprite no taller than the screen, a cell is inverted exactly
/// when a set bit lands on it.
pub proof fn lemma_toggled_once(sprite: Seq<u8>, x0: int, y0: int, steps: nat, cell: int)
    requires
        steps <= 8 * HEIGHT,
    ensures
        toggled(sprite, x0, y0, steps, cell) <==> exists|k: int|
            0 <= k < steps && #[trigger] step_bit(sprite, k) && step_cell(x0, y0, k) == cell,
    decreases steps,
{
    if steps > 0 {
        let last = steps - 1;
        lemma_toggled_once(sprite, x0, y0, last as nat, cell);
        if step_bit(sprite, last) && step_cell(x0, y0, last) == cell {
            assert forall|k: int| 0 <= k < last && #[trigger] step_bit(sprite, k) implies step_cell(
                x0,
                y0,
                k,
            ) != cell by {
                lemma_step_cells_distinct(x0, y0, k, last);
            }
        }
    }
}

/// A sprite no taller than the screen collides exactly when one of its set
/// bits lands on a cell that was set before the draw.
pub proof fn lemma_blit_collision(
    screen: Seq<bool>,
    sprite: Seq<u8>,
    x0: int,
    y0: int,
    steps: nat,
)
    requires
        screen.len() == WIDTH * HEIGHT,
        steps <= 8 * HEIGHT,
    ensures
        blit_collides(screen, sprite, x0, y0, steps) <==> lands_on(
            screen,
            sprite,
            x0,
            y0,
            steps,
            true,
        ),
    decreases steps,
{
    if steps > 0 {
        let last = steps - 1;
        let cell = step_cell(x0, y0, last);
        lemma_blit_collision(screen, sprite, x0, y0, last as nat);
        lemma_blit_cell(screen, sprite, x0, y0, last as nat, cell);
        lemma_toggled_once(sprite, x0, y0, last as nat, cell);
        assert forall|k: int| 0 <= k < last implies step_cell(x0, y0, k) != cell by {
            lemma_step_cells_distinct(x0, y0, k, last);
        }
        if lands_on(screen, sprite, x0, y0, steps, true) {
            let k = choose|k: int|
                0 <= k < steps && #[trigger] step_bit(sprite, k) && screen[step_cell(x0, y0, k)]
                    == true;
            if k < last {
                assert(lands_on(screen, sprite, x0, y0, last as nat, true));
            }
        }
    }
}

/// For a sprite no taller than the screen drawn twice in a row at the same
/// place: the first draw collides exactly when a set bit lands on a cell
/// that was set at the start, the second exactly when a set bit lands on a
/// cell that was clear at the start.
pub proof fn lemma_blit_twice_collisions(screen: Seq<bool>, sprite: Seq<u8>, x0: int, y0: int)
    requires
        screen.len() == WIDTH * HEIGHT,
        sprite.len() <= HEIGHT,
    ensures
        collided(screen, sprite, x0, y0) <==> lands_on(
            screen,
            sprite,
            x0,
            y0,
            8 * sprite.len(),
            true,
        ),
        collided(blitted(screen, sprite, x0, y0), sprite, x0, y0) <==> lands_on(
            screen,
            sprite,
            x0,
            y0,
            8 * sprite.len(),
            false,
        ),
{
    let steps = 8 * sprite.len();
    let once = blitted(screen, sprite, x0, y0);
    lemma_blit_len(screen, sprite, x0, y0, steps);
    lemma_blit_collision(screen, sprite, x0, y0, steps);
    lemma_blit_collision(once, sprite, x0, y0, steps);
    assert forall|k: int| 0 <= k < steps && #[trigger] step_bit(sprite, k) implies once[step_cell(
        x0,
        y0,
        k,
    )] == !screen[step_cell(x0, y0, k)] by {
        lemma_blit_cell(screen, sprite, x0, y0, steps, step_cell(x0, y0, k));
        lemma_toggled_once(sprite, x0, y0, steps, step_cell(x0, y0, k));
    }
    if lands_on(once, sprite, x0, y0, steps, true) {
        let k = choose|k: int|
            0 <= k < steps && #[trigger] step_bit(sprite, k) && once[step_cell(x0, y0, k)] == true;
        assert(step_bit(sprite, k) && screen[step_cell(x0, y0, k)] == false);
    }
    if lands_on(screen, sprite, x0, y0, steps, false) {
        let k = choose|k: int|
            0 <= k < steps && #[trigger] step_bit(sprite, k) && screen[step_cell(x0, y0, k)]
                == false;
        assert(step_bit(sprite, k) && once[step_cell(x0, y0, k)] == true);
    }
}

/// Drawing a sprite no taller than the screen twice in a row at the same
/// place reports the same collision both times when its set bits land on
/// cells of both states, or when it has no set bit at all.
pub proof fn lemma_blit_twice_same_collision(
    screen: Seq<bool>,
    sprite: Seq<u8>,
    x0: int,
    y0: int,
)
    requires
        screen.len() == WIDTH * HEIGHT,
        sprite.len() <= HEIGHT,
        lands_on(screen, sprite, x0, y0, 8 * sprite.len(), true) == lands_on(
            screen,
            sprite,
            x0,
            y0,
            8 * sprite.len(),
            false,
        ),
    ensures
        collided(blitted(screen, sprite, x0, y0), sprite, x0, y0) == collided(
            screen,
            sprite,
            x0,
            y0,
        ),
{
    lemma_blit_twice_collisions(screen, sprite, x0, y0);
}

} // verus!
