use vstd::prelude::*;

verus! {

/// Width of the display in pixels.
pub const WIDTH: usize = 64;

/// Height of the display in pixels.
pub const HEIGHT: usize = 32;

/// Number of pixels on the display.
pub const PIXELS: usize = 2048;

/// Largest number of rows in a sprite.
pub const MAX_SPRITE_ROWS: usize = 15;

/// Buffer position of the pixel at column `col`, row `row`; both wrap around
/// the display's edges.
pub open spec fn pixel_index(col: int, row: int) -> int {
    (row % (HEIGHT as int)) * (WIDTH as int) + col % (WIDTH as int)
}

/// Whether bit `b` of a sprite row is set, counting from the most
/// significant bit (the leftmost pixel).
pub open spec fn sprite_bit(byte: u8, b: int) -> bool {
    (byte >> (7 - b) as u8) & 1u8 == 1u8
}

/// Whether a sprite drawn at (`x`, `y`) has a set bit on the pixel at buffer
/// position `k`.
pub open spec fn covers(rows: Seq<u8>, x: int, y: int, k: int) -> bool {
    let r = (k / (WIDTH as int) - y) % (HEIGHT as int);
    let b = (k % (WIDTH as int) - x) % (WIDTH as int);
    r < rows.len() && b < 8 && sprite_bit(rows[r], b)
}

/// The pixels after a sprite drawn at (`x`, `y`) is XORed onto `pixels`.
pub open spec fn drawn(pixels: Seq<bool>, rows: Seq<u8>, x: int, y: int) -> Seq<bool> {
    Seq::new(pixels.len(), |k: int| pixels[k] != covers(rows, x, y, k))
}

/// Whether a set bit of a sprite drawn at (`x`, `y`) meets a pixel that is on.
pub open spec fn collides(pixels: Seq<bool>, rows: Seq<u8>, x: int, y: int) -> bool {
    exists|r: int, b: int|
        0 <= r < rows.len() && 0 <= b < 8 && sprite_bit(rows[r], b) && #[trigger] pixels[pixel_index(
            x + b,
            y + r,
        )]
}

/// The sprite pixel that buffer position `k` holds is row `r`, bit `b` of a
/// sprite drawn at (`x`, `y`), and no other.
proof fn lemma_pixel_of_sprite_bit(x: int, y: int, r: int, b: int, k: int)
    requires
        0 <= x < 256,
        0 <= y < 256,
        0 <= r < HEIGHT,
        0 <= b < 8,
        0 <= k < PIXELS,
    ensures
        (k == pixel_index(x + b, y + r)) <==> ((k / (WIDTH as int) - y) % (HEIGHT as int) == r && (k
            % (WIDTH as int) - x) % (WIDTH as int) == b),
{
}

/// The monochrome pixel grid; `true` is a pixel that is on.
#[derive(Debug)]
pub struct Screen {
    pub buffer: [bool; 2048],
}

impl Screen {
    /// A display with every pixel off.
    pub fn new() -> (s: Self)
        ensures
            forall|k: int| 0 <= k < PIXELS ==> !#[trigger] s.buffer@[k],
    {
        Screen { buffer: [false; 2048] }
    }

    /// Turns every pixel off.
    pub fn clear(&mut self)
        ensures
            forall|k: int| 0 <= k < PIXELS ==> !#[trigger] final(self).buffer@[k],
    {
        self.buffer = [false; 2048];
    }

    /// Whether the pixel at column `col`, row `row` is on.
    pub fn is_on(&self, col: usize, row: usize) -> (r: bool)
        requires
            col < WIDTH,
            row < HEIGHT,
        ensures
            r == self.buffer@[pixel_index(col as int, row as int)],
    {
        self.buffer[row * WIDTH + col]
    }

    /// XORs a sprite onto the display with its top-left corner at (`x`, `y`),
    /// wrapping around the edges. Row `r` of the sprite is `rows[r]`, its
    /// most significant bit leftmost. Returns whether a set sprite bit met a
    /// pixel that was already on.
    pub fn draw_sprite(&mut self, x: u8, y: u8, rows: &[u8]) -> (collision: bool)
        requires
            rows@.len() <= MAX_SPRITE_ROWS,
        ensures
            final(self).buffer@ == drawn(old(self).buffer@, rows@, x as int, y as int),
            collision == collides(old(self).buffer@, rows@, x as int, y as int),
    {
        let ghost start = self.buffer@;
        let mut collision = false;
        let mut r: usize = 0;
        while r < rows.len()
            invariant
                rows@.len() <= MAX_SPRITE_ROWS,
                r <= rows@.len(),
                start.len() == PIXELS,
                self.buffer@.len() == PIXELS,
                forall|k: int|
                    0 <= k < PIXELS ==> #[trigger] self.buffer@[k] == (start[k] != (covers(
                        rows@,
                        x as int,
                        y as int,
                        k,
                    ) && (k / (WIDTH as int) - y) % (HEIGHT as int) < r)),
                collision == exists|i: int, b: int|
                    0 <= i < r && 0 <= b < 8 && sprite_bit(rows@[i], b)
                        && #[trigger] start[pixel_index(x + b, y + i)],
            decreases rows@.len() - r,
        {
            let value = rows[r];
            let row = (y as usize + r) % HEIGHT;
            let mut b: usize = 0;
            while b < 8
                invariant
                    rows@.len() <= MAX_SPRITE_ROWS,
                    r < rows@.len(),
                    b <= 8,
                    value == rows@[r as int],
                    row == (y + r) % (HEIGHT as int),
                    start.len() == PIXELS,
                    self.buffer@.len() == PIXELS,
                    forall|k: int|
                        0 <= k < PIXELS ==> #[trigger] self.buffer@[k] == (start[k] != (covers(
                            rows@,
                            x as int,
                            y as int,
                            k,
                        ) && ((k / (WIDTH as int) - y) % (HEIGHT as int) < r || ((k / (
                        WIDTH as int) - y) % (HEIGHT as int) == r && (k % (WIDTH as int) - x) % (
                        WIDTH as int) < b)))),
                    collision == exists|i: int, c: int|
                        (0 <= i < r && 0 <= c < 8 || i == r && 0 <= c < b) && sprite_bit(
                            rows@[i],
                            c,
                        ) && #[trigger] start[pixel_index(x + c, y + i)],
                decreases 8 - b,
            {
                let col = (x as usize + b) % WIDTH;
                let index = row * WIDTH + col;
                let set = (value >> (7 - b) as u8) & 1u8 == 1u8;
                proof {
                    assert(index == pixel_index(x + b, y + r));
                }
                let old_pixel = self.buffer[index];
                if set {
                    self.buffer[index] = !old_pixel;
                    if old_pixel {
                        collision = true;
                    }
                }
                proof {
                    assert(old_pixel == start[index as int]);
                    if set && old_pixel {
                        assert(sprite_bit(rows@[r as int], b as int)
                            && start[pixel_index(x + b, y + r)]);
                    }
                    assert forall|k: int| 0 <= k < PIXELS implies #[trigger] self.buffer@[k] == (
                    start[k] != (covers(rows@, x as int, y as int, k) && ((k / (WIDTH as int) - y)
                        % (HEIGHT as int) < r || ((k / (WIDTH as int) - y) % (HEIGHT as int) == r
                        && (k % (WIDTH as int) - x) % (WIDTH as int) < b + 1)))) by {
                        lemma_pixel_of_sprite_bit(x as int, y as int, r as int, b as int, k);
                    }
                }
                b = b + 1;
            }
            r = r + 1;
        }
        proof {
            assert forall|k: int| 0 <= k < PIXELS && #[trigger] covers(rows@, x as int, y as int, k)
                implies (k / (WIDTH as int) - y) % (HEIGHT as int) < r by {}
            assert(self.buffer@ =~= drawn(start, rows@, x as int, y as int));
        }
        collision
    }
}

} // verus!
