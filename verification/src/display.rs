use vstd::prelude::*;
use vstd::arithmetic::div_mod::lemma_fundamental_div_mod;
use vstd::arithmetic::div_mod::lemma_fundamental_div_mod_converse_div;
use vstd::arithmetic::div_mod::lemma_fundamental_div_mod_converse_mod;
use vstd::arithmetic::div_mod::lemma_mod_multiples_vanish;

verus! {

/// Pixels per display row.
pub const RESOLUTION_WIDTH: usize = 64;

/// Display rows.
pub const RESOLUTION_HEIGHT: usize = 32;

/// Total pixels of the display.
pub const PIXEL_COUNT: usize = RESOLUTION_HEIGHT * RESOLUTION_WIDTH;

/// Whether pixel column `c` (0 = leftmost) of a sprite row byte is set:
/// a row byte expands to 8 pixels most-significant bit first.
pub open spec fn sprite_bit(b: u8, c: int) -> bool {
    (b >> ((7 - c) as u8)) & 1 == 1
}

/// Whether a sprite blitted at (dx, dy) flips the display pixel
/// (px, py).  Both axes wrap modulo the resolution, so the sprite row
/// and column that land on the pixel are recovered by Euclidean
/// remainders; the pixel flips exactly when that row exists and its bit
/// for that column is set.  With at most 32 sprite rows, no two sprite
/// bits land on the same pixel.
pub open spec fn covers(sprite: Seq<u8>, dx: int, dy: int, px: int, py: int) -> bool {
    let r = (py - dy) % (RESOLUTION_HEIGHT as int);
    let c = (px - dx) % (RESOLUTION_WIDTH as int);
    r < sprite.len() && c < 8 && sprite_bit(sprite[r], c)
}

/// The display contents after XOR-blitting a sprite at (dx, dy):
/// each pixel is toggled exactly when the sprite covers it.
pub open spec fn blit(pixels: Seq<bool>, sprite: Seq<u8>, dx: int, dy: int) -> Seq<bool> {
    Seq::new(
        pixels.len(),
        |i: int|
            pixels[i] != covers(
                sprite,
                dx,
                dy,
                i % (RESOLUTION_WIDTH as int),
                i / (RESOLUTION_WIDTH as int),
            ),
    )
}

/// Whether the blit clears at least one pixel that was set: the
/// collision reported in the flag register by the draw instruction.
pub open spec fn blit_collides(pixels: Seq<bool>, sprite: Seq<u8>, dx: int, dy: int) -> bool {
    exists|i: int|
        0 <= i < pixels.len() && pixels[i] && #[trigger] covers(
            sprite,
            dx,
            dy,
            i % (RESOLUTION_WIDTH as int),
            i / (RESOLUTION_WIDTH as int),
        )
}

/// Blitting the same sprite twice at the same coordinates restores the
/// prior pixel state exactly: the XOR-blit is its own inverse.
pub proof fn lemma_double_blit(pixels: Seq<bool>, sprite: Seq<u8>, dx: int, dy: int)
    ensures
        blit(blit(pixels, sprite, dx, dy), sprite, dx, dy) == pixels,
{
    assert(blit(blit(pixels, sprite, dx, dy), sprite, dx, dy) =~= pixels);
}

/// The 64x32 monochrome framebuffer, mutated only by sprite XOR-blit
/// or by a full clear, and read by a row-major traversal.
pub struct Display {
    pixels: Vec<bool>,
}

impl View for Display {
    type V = Seq<bool>;

    closed spec fn view(&self) -> Seq<bool> {
        self.pixels@
    }
}

impl Display {
    /// The resolution invariant: exactly one flag per pixel.
    pub open spec fn wf(self) -> bool {
        self@.len() == PIXEL_COUNT
    }

    /// A fresh display with every pixel clear.
    pub fn new() -> (r: Display)
        ensures
            r.wf(),
            r@ =~= Seq::new(PIXEL_COUNT as nat, |i: int| false),
    {
        let mut pixels: Vec<bool> = Vec::new();
        let mut i: usize = 0;
        while i < PIXEL_COUNT
            invariant
                i <= PIXEL_COUNT,
                pixels@.len() == i,
                forall|j: int| 0 <= j < i ==> !pixels@[j],
            decreases PIXEL_COUNT - i,
        {
            pixels.push(false);
            i = i + 1;
        }
        Display { pixels }
    }

    /// Clears every pixel.
    pub fn clear(&mut self)
        requires
            old(self).wf(),
        ensures
            final(self).wf(),
            final(self)@ =~= Seq::new(PIXEL_COUNT as nat, |i: int| false),
    {
        let mut i: usize = 0;
        while i < PIXEL_COUNT
            invariant
                i <= PIXEL_COUNT,
                self.pixels@.len() == PIXEL_COUNT,
                forall|j: int| 0 <= j < i ==> !self.pixels@[j],
            decreases PIXEL_COUNT - i,
        {
            self.pixels.set(i, false);
            i = i + 1;
        }
    }

    /// XOR-blits a sprite whose rows are the given bytes, top row first,
    /// at (dx, dy); both axes wrap modulo the resolution.  Returns
    /// whether any pixel transitioned from set to clear.  A sprite of at
    /// most one screen of rows keeps every sprite bit on its own pixel;
    /// the draw instruction passes at most 15 rows.
    pub fn set_sprite(&mut self, dx: usize, dy: usize, sprite: &Vec<u8>) -> (did_flip: bool)
        requires
            old(self).wf(),
            sprite@.len() <= RESOLUTION_HEIGHT,
        ensures
            final(self).wf(),
            final(self)@ == blit(old(self)@, sprite@, dx as int, dy as int),
            did_flip == blit_collides(old(self)@, sprite@, dx as int, dy as int),
    {
        let mut did_flip = false;
        let mut i: usize = 0;
        while i < PIXEL_COUNT
            invariant
                i <= PIXEL_COUNT,
                self.pixels@.len() == PIXEL_COUNT,
                old(self)@.len() == PIXEL_COUNT,
                sprite@.len() <= RESOLUTION_HEIGHT,
                forall|j: int|
                    0 <= j < i ==> self.pixels@[j] == (old(self)@[j] != #[trigger] covers(
                        sprite@,
                        dx as int,
                        dy as int,
                        j % (RESOLUTION_WIDTH as int),
                        j / (RESOLUTION_WIDTH as int),
                    )),
                forall|j: int| i <= j < PIXEL_COUNT ==> self.pixels@[j] == old(self)@[j],
                did_flip == exists|j: int|
                    0 <= j < i && old(self)@[j] && #[trigger] covers(
                        sprite@,
                        dx as int,
                        dy as int,
                        j % (RESOLUTION_WIDTH as int),
                        j / (RESOLUTION_WIDTH as int),
                    ),
            decreases PIXEL_COUNT - i,
        {
            let px = i % RESOLUTION_WIDTH;
            let py = i / RESOLUTION_WIDTH;
            let rr = (py + RESOLUTION_HEIGHT - dy % RESOLUTION_HEIGHT) % RESOLUTION_HEIGHT;
            let cc = (px + RESOLUTION_WIDTH - dx % RESOLUTION_WIDTH) % RESOLUTION_WIDTH;
            proof {
                lemma_fundamental_div_mod(dy as int, RESOLUTION_HEIGHT as int);
                assert(py + RESOLUTION_HEIGHT - dy % RESOLUTION_HEIGHT == (RESOLUTION_HEIGHT as int)
                    * ((dy as int) / (RESOLUTION_HEIGHT as int) + 1) + (py as int - dy as int));
                lemma_mod_multiples_vanish(
                    (dy as int) / (RESOLUTION_HEIGHT as int) + 1,
                    py as int - dy as int,
                    RESOLUTION_HEIGHT as int,
                );
                lemma_fundamental_div_mod(dx as int, RESOLUTION_WIDTH as int);
                assert(px + RESOLUTION_WIDTH - dx % RESOLUTION_WIDTH == (RESOLUTION_WIDTH as int)
                    * ((dx as int) / (RESOLUTION_WIDTH as int) + 1) + (px as int - dx as int));
                lemma_mod_multiples_vanish(
                    (dx as int) / (RESOLUTION_WIDTH as int) + 1,
                    px as int - dx as int,
                    RESOLUTION_WIDTH as int,
                );
                assert(rr == (py as int - dy as int) % (RESOLUTION_HEIGHT as int));
                assert(cc == (px as int - dx as int) % (RESOLUTION_WIDTH as int));
            }
            let cov = if rr < sprite.len() && cc < 8 {
                let byte = sprite[rr];
                let shift: u8 = 7 - (cc as u8);
                ((byte >> shift) & 1) == 1
            } else {
                false
            };
            proof {
                assert(cov == covers(sprite@, dx as int, dy as int, px as int, py as int));
            }
            if cov {
                let p = self.pixels[i];
                if p {
                    did_flip = true;
                    proof {
                        assert(old(self)@[i as int] && covers(
                            sprite@,
                            dx as int,
                            dy as int,
                            i as int % (RESOLUTION_WIDTH as int),
                            i as int / (RESOLUTION_WIDTH as int),
                        ));
                    }
                }
                self.pixels.set(i, !p);
            }
            i = i + 1;
        }
        proof {
            assert(self.pixels@ =~= blit(old(self)@, sprite@, dx as int, dy as int));
        }
        did_flip
    }

    /// Reads one pixel by its column and row.
    pub fn pixel(&self, x: usize, y: usize) -> (r: bool)
        requires
            self.wf(),
            x < RESOLUTION_WIDTH,
            y < RESOLUTION_HEIGHT,
        ensures
            r == self@[y * RESOLUTION_WIDTH + x],
    {
        self.pixels[y * RESOLUTION_WIDTH + x]
    }

    /// The row-major read-only traversal of the display: one
    /// (column, row, pixel-is-set) triple per pixel, rows outermost, for
    /// a rendering collaborator to consume.
    pub fn traverse(&self) -> (r: Vec<(usize, usize, bool)>)
        requires
            self.wf(),
        ensures
            r@.len() == PIXEL_COUNT,
            forall|k: int|
                0 <= k < PIXEL_COUNT ==> #[trigger] r@[k] == (
                    (k % (RESOLUTION_WIDTH as int)) as usize,
                    (k / (RESOLUTION_WIDTH as int)) as usize,
                    self@[k],
                ),
    {
        let mut r: Vec<(usize, usize, bool)> = Vec::new();
        let mut rowdex: usize = 0;
        while rowdex < RESOLUTION_HEIGHT
            invariant
                self.wf(),
                rowdex <= RESOLUTION_HEIGHT,
                r@.len() == rowdex * RESOLUTION_WIDTH,
                forall|k: int|
                    0 <= k < r@.len() ==> #[trigger] r@[k] == (
                        (k % (RESOLUTION_WIDTH as int)) as usize,
                        (k / (RESOLUTION_WIDTH as int)) as usize,
                        self@[k],
                    ),
            decreases RESOLUTION_HEIGHT - rowdex,
        {
            let offset = rowdex * RESOLUTION_WIDTH;
            let mut coldex: usize = 0;
            while coldex < RESOLUTION_WIDTH
                invariant
                    self.wf(),
                    rowdex < RESOLUTION_HEIGHT,
                    coldex <= RESOLUTION_WIDTH,
                    offset == rowdex * RESOLUTION_WIDTH,
                    r@.len() == offset + coldex,
                    forall|k: int|
                        0 <= k < r@.len() ==> #[trigger] r@[k] == (
                            (k % (RESOLUTION_WIDTH as int)) as usize,
                            (k / (RESOLUTION_WIDTH as int)) as usize,
                            self@[k],
                        ),
                decreases RESOLUTION_WIDTH - coldex,
            {
                let pixel = self.pixels[offset + coldex];
                proof {
                    lemma_fundamental_div_mod_converse_mod(
                        offset + coldex,
                        RESOLUTION_WIDTH as int,
                        rowdex as int,
                        coldex as int,
                    );
                    lemma_fundamental_div_mod_converse_div(
                        offset + coldex,
                        RESOLUTION_WIDTH as int,
                        rowdex as int,
                        coldex as int,
                    );
                }
                r.push((coldex, rowdex, pixel));
                coldex = coldex + 1;
            }
            rowdex = rowdex + 1;
        }
        r
    }
}

} // verus!
