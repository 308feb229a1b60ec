//! The 64 by 32 monochrome framebuffer and sprite drawing: sprites are XORed
//! in, clipped at the edges, and report whether they cleared a lit pixel.
use vstd::prelude::*;

verus! {

/// Framebuffer columns.
pub const SCREEN_WIDTH: usize = 64;

/// Framebuffer rows.
pub const SCREEN_HEIGHT: usize = 32;

/// A framebuffer, row by row; `true` is a lit pixel.
pub open spec fn screen_view(screen: &[[bool; 64]; 32]) -> Seq<Seq<bool>> {
    Seq::new(SCREEN_HEIGHT as nat, |r: int| screen[r]@)
}

/// A framebuffer with every pixel cleared.
pub open spec fn blank_screen() -> Seq<Seq<bool>> {
    Seq::new(SCREEN_HEIGHT as nat, |r: int| Seq::new(SCREEN_WIDTH as nat, |c: int| false))
}

/// Column `col` (0 is leftmost) of a sprite row: its bits are read from the
/// most significant down.
pub open spec fn sprite_bit(row: u8, col: int) -> bool {
    (row >> ((7 - col) as u8)) & 1u8 == 1u8
}

/// Whether the sprite's pixel at screen row `r`, column `c` is lit when its
/// top-left corner stands at (`x0`, `y0`); false outside the sprite.
pub open spec fn sprite_covers(x0: int, y0: int, sprite: Seq<u8>, r: int, c: int) -> bool {
    &&& y0 <= r < y0 + sprite.len()
    &&& x0 <= c < x0 + 8
    &&& sprite_bit(sprite[r - y0], c - x0)
}

/// The framebuffer after XORing in `sprite` at (`x0`, `y0`). Only pixels of
/// the grid change, so a sprite that runs past an edge is cut off there and
/// never wraps round to the other side.
pub open spec fn draw_screen(screen: Seq<Seq<bool>>, x0: int, y0: int, sprite: Seq<u8>) -> Seq<Seq<bool>> {
    Seq::new(
        SCREEN_HEIGHT as nat,
        |r: int| Seq::new(
            SCREEN_WIDTH as nat,
            |c: int| screen[r][c] != sprite_covers(x0, y0, sprite, r, c),
        ),
    )
}

/// Whether the sprite's lit pixel at (`r`, `c`) falls on a lit pixel of the
/// grid, which the XOR then clears.
pub open spec fn pixel_cleared(screen: Seq<Seq<bool>>, x0: int, y0: int, sprite: Seq<u8>, r: int, c: int) -> bool {
    &&& 0 <= r < SCREEN_HEIGHT
    &&& 0 <= c < SCREEN_WIDTH
    &&& screen[r][c]
    &&& sprite_covers(x0, y0, sprite, r, c)
}

/// Whether drawing `sprite` at (`x0`, `y0`) clears any lit pixel of the grid.
pub open spec fn draw_collides(screen: Seq<Seq<bool>>, x0: int, y0: int, sprite: Seq<u8>) -> bool {
    exists|r: int, c: int| #[trigger] pixel_cleared(screen, x0, y0, sprite, r, c)
}

/// Clears every pixel.
pub fn clear_screen(screen: &mut [[bool; 64]; 32])
    ensures
        screen_view(final(screen)) == blank_screen(),
{
    let mut r: usize = 0;
    while r < SCREEN_HEIGHT
        invariant
            r <= SCREEN_HEIGHT,
            forall|rr: int| 0 <= rr < r ==> #[trigger] screen[rr]@ == Seq::new(SCREEN_WIDTH as nat, |c: int| false),
        decreases SCREEN_HEIGHT - r,
    {
        screen[r] = [false; 64];
        assert(screen[r as int]@ =~= Seq::new(SCREEN_WIDTH as nat, |c: int| false));
        r = r + 1;
    }
    assert(screen_view(screen) =~= blank_screen());
}

/// XORs the `n` bytes of `ram` from `start` into the framebuffer as an
/// 8-pixel-wide sprite with its top-left corner at (`x0`, `y0`), clipping at
/// the edges. Returns whether a lit pixel was cleared.
pub fn draw_sprite(screen: &mut [[bool; 64]; 32], ram: &[u8; 4096], start: usize, n: usize, x0: usize, y0: usize) -> (collision: bool)
    requires
        start + n <= 4096,
        n < 16,
        x0 < SCREEN_WIDTH,
        y0 < SCREEN_HEIGHT,
    ensures
        screen_view(final(screen)) == draw_screen(
            screen_view(old(screen)),
            x0 as int,
            y0 as int,
            ram@.subrange(start as int, start + n),
        ),
        collision == draw_collides(screen_view(old(screen)), x0 as int, y0 as int, ram@.subrange(start as int, start + n)),
{
    let ghost orig = screen_view(screen);
    let ghost sprite = ram@.subrange(start as int, start + n);
    let mut collision = false;
    let mut row: usize = 0;
    while row < n
        invariant
            start + n <= 4096,
            n < 16,
            x0 < SCREEN_WIDTH,
            y0 < SCREEN_HEIGHT,
            row <= n,
            sprite == ram@.subrange(start as int, start + n),
            forall|r: int, c: int| 0 <= r < SCREEN_HEIGHT && 0 <= c < SCREEN_WIDTH ==> #[trigger] screen[r]@[c] == (
                if r < y0 + row { orig[r][c] != sprite_covers(x0 as int, y0 as int, sprite, r, c) } else { orig[r][c] }),
            collision == exists|r: int, c: int| r < y0 + row && #[trigger] pixel_cleared(orig, x0 as int, y0 as int, sprite, r, c),
        decreases n - row,
    {
        let data = ram[start + row];
        let r = y0 + row;
        assert(data == sprite[row as int]);
        if r < SCREEN_HEIGHT {
            let mut col: usize = 0;
            while col < 8
                invariant
                    start + n <= 4096,
                    n < 16,
                    x0 < SCREEN_WIDTH,
                    y0 < SCREEN_HEIGHT,
                    row < n,
                    r == y0 + row,
                    r < SCREEN_HEIGHT,
                    col <= 8,
                    data == sprite[row as int],
                    sprite == ram@.subrange(start as int, start + n),
                    forall|rr: int, c: int| 0 <= rr < SCREEN_HEIGHT && 0 <= c < SCREEN_WIDTH ==> #[trigger] screen[rr]@[c] == (
                        if rr < r || (rr == r && c < x0 + col) {
                            orig[rr][c] != sprite_covers(x0 as int, y0 as int, sprite, rr, c)
                        } else {
                            orig[rr][c]
                        }),
                    collision == exists|rr: int, c: int|
                        (rr < r || (rr == r && c < x0 + col)) && #[trigger] pixel_cleared(orig, x0 as int, y0 as int, sprite, rr, c),
                decreases 8 - col,
            {
                let c = x0 + col;
                if c < SCREEN_WIDTH {
                    let bit = (data >> (7 - col as u8)) & 1u8 == 1u8;
                    assert(bit == sprite_covers(x0 as int, y0 as int, sprite, r as int, c as int));
                    let prev = screen[r][c];
                    let lit = prev != bit;
                    screen[r][c] = lit;
                    if prev && bit {
                        assert(pixel_cleared(orig, x0 as int, y0 as int, sprite, r as int, c as int));
                        collision = true;
                    }
                } else {
                    assert forall|cc: int| x0 + col <= cc < x0 + col + 1 implies !sprite_covers(x0 as int, y0 as int, sprite, r as int, cc) || cc >= SCREEN_WIDTH by {}
                }
                col = col + 1;
            }
            assert forall|cc: int| 0 <= cc < SCREEN_WIDTH && cc >= x0 + 8 implies !sprite_covers(x0 as int, y0 as int, sprite, r as int, cc) by {}
        }
        row = row + 1;
    }
    assert(screen_view(screen) =~~= draw_screen(orig, x0 as int, y0 as int, sprite));
    collision
}

} // verus!
