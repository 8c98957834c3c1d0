//! A 64x32 framebuffer drawn through a two-colour palette, with XOR sprite
//! drawing and collision detection.

use vstd::prelude::*;

verus! {

/// Height of the framebuffer in pixels.
pub const HEIGHT: usize = 32;

/// Width of the framebuffer in pixels.
pub const WIDTH: usize = 64;

/// Number of pixels in the framebuffer.
pub const PIXEL_COUNT: usize = 2048;

/// Length of the flat RGB rendering of the framebuffer.
pub const RGB8_LEN: usize = 6144;

/// The foreground colour of a new framebuffer: white.
pub open spec fn default_foreground() -> Rgb {
    Rgb { red: 255, green: 255, blue: 255 }
}

/// The background colour of a new framebuffer: black.
pub open spec fn default_background() -> Rgb {
    Rgb { red: 0, green: 0, blue: 0 }
}

/// An RGB colour with 8 bits per channel.
#[derive(Clone, Copy, Debug, PartialEq, Eq, Structural)]
pub struct Rgb {
    /// Red channel.
    pub red: u8,
    /// Green channel.
    pub green: u8,
    /// Blue channel.
    pub blue: u8,
}

impl Rgb {
    /// The channels as `[red, green, blue]`.
    pub fn as_array(&self) -> (r: [u8; 3])
        ensures
            r@ == seq![self.red, self.green, self.blue],
    {
        [self.red, self.green, self.blue]
    }

    /// The colour whose channels are `[red, green, blue]`.
    pub fn from_array(array: [u8; 3]) -> (r: Self)
        ensures
            r.red == array@[0],
            r.green == array@[1],
            r.blue == array@[2],
    {
        Rgb { red: array[0], green: array[1], blue: array[2] }
    }
}

/// Whether the sprite bit of `data` for column offset `b` (0 is the most
/// significant bit) is set.
pub open spec fn sprite_bit(data: u8, b: int) -> bool {
    (data >> ((7 - b) as u8)) & 1u8 == 1u8
}

/// How many columns a sprite byte drawn at `(x, y)` covers: none below the
/// last row or right of the last column, else up to eight, clipped at the
/// right edge.
pub open spec fn span(x: int, y: int) -> int {
    if y < 0 || y >= HEIGHT || x < 0 || x >= WIDTH {
        0
    } else if WIDTH - x < 8 {
        WIDTH - x
    } else {
        8
    }
}

/// Whether pixel index `i` lies under column `b` of a sprite byte at `(x, y)`;
/// `Some(b)` if so.
pub open spec fn column_at(x: int, y: int, i: int) -> Option<int> {
    let b = i - (WIDTH * y + x);
    if 0 <= b < span(x, y) {
        Some(b)
    } else {
        None
    }
}

/// The pixels after XOR-drawing `data` at `(x, y)` over `old`.
pub open spec fn drawn(old: Seq<Rgb>, fg: Rgb, bg: Rgb, x: int, y: int, data: u8) -> Seq<Rgb> {
    Seq::new(
        old.len(),
        |i: int|
            match column_at(x, y, i) {
                Some(b) => if sprite_bit(data, b) != (old[i] == fg) {
                    fg
                } else {
                    bg
                },
                None => old[i],
            },
    )
}

/// Whether drawing `data` at `(x, y)` over `old` sets a bit on a pixel that is
/// already in the foreground colour.
pub open spec fn collides(old: Seq<Rgb>, fg: Rgb, x: int, y: int, data: u8) -> bool {
    exists|b: int|
        0 <= b < span(x, y) && #[trigger] sprite_bit(data, b) && old[WIDTH * y + x + b] == fg
}

/// The pixels after the colour `from` is replaced by `to` everywhere.
pub open spec fn recolored(old: Seq<Rgb>, from: Rgb, to: Rgb) -> Seq<Rgb> {
    Seq::new(old.len(), |i: int| if old[i] == from { to } else { old[i] })
}

/// The on/off pattern of `pixels`: on where the pixel has colour `fg`.
pub open spec fn pattern(pixels: Seq<Rgb>, fg: Rgb) -> Seq<bool> {
    Seq::new(pixels.len(), |i: int| pixels[i] == fg)
}

/// The pixels after XOR-drawing the sprite `rows` at `(x, y)`, one row per
/// line downwards, over `old`, and whether any row collided.
pub open spec fn sprite_drawn(old: Seq<Rgb>, fg: Rgb, bg: Rgb, x: int, y: int, rows: Seq<u8>) -> (
    Seq<Rgb>,
    bool,
)
    decreases rows.len(),
{
    if rows.len() == 0 {
        (old, false)
    } else {
        let k = rows.len() - 1;
        let (pixels, collision) = sprite_drawn(old, fg, bg, x, y, rows.drop_last());
        (
            drawn(pixels, fg, bg, x, y + k, rows[k]),
            collision || collides(pixels, fg, x, y + k, rows[k]),
        )
    }
}

/// The framebuffer: a row-major grid of [`WIDTH`] x [`HEIGHT`] pixels, each of
/// which holds either the foreground or the background colour.
pub struct Buffer {
    vram: Vec<Rgb>,
    foreground_rgb: Rgb,
    background_rgb: Rgb,
}

impl Buffer {
    /// The pixels, row-major.
    pub closed spec fn pixels(&self) -> Seq<Rgb> {
        self.vram@
    }

    /// The colour of active pixels.
    pub closed spec fn fg(&self) -> Rgb {
        self.foreground_rgb
    }

    /// The colour of inactive pixels.
    pub closed spec fn bg(&self) -> Rgb {
        self.background_rgb
    }

    /// The grid has [`PIXEL_COUNT`] pixels, each in one of the two palette
    /// colours.
    pub open spec fn wf(&self) -> bool {
        &&& self.pixels().len() == PIXEL_COUNT
        &&& forall|i: int|
            0 <= i < PIXEL_COUNT ==> #[trigger] self.pixels()[i] == self.fg() || self.pixels()[i]
                == self.bg()
    }

    /// The on/off pattern of the grid.
    pub open spec fn lit(&self) -> Seq<bool> {
        pattern(self.pixels(), self.fg())
    }

    /// A blank grid in white on black.
    pub fn new() -> (r: Self)
        ensures
            r.wf(),
            r.fg() == default_foreground(),
            r.bg() == default_background(),
            r.pixels() == Seq::new(PIXEL_COUNT as nat, |i: int| default_background()),
    {
        let r = Buffer {
            vram: vec![Rgb { red: 0, green: 0, blue: 0 }; PIXEL_COUNT],
            foreground_rgb: Rgb { red: 255, green: 255, blue: 255 },
            background_rgb: Rgb { red: 0, green: 0, blue: 0 },
        };
        assert(r.pixels() =~= Seq::new(PIXEL_COUNT as nat, |i: int| default_background()));
        r
    }

    /// The colour of active pixels.
    pub fn foreground_rgb(&self) -> (r: Rgb)
        ensures
            r == self.fg(),
    {
        self.foreground_rgb
    }

    /// The colour of inactive pixels.
    pub fn background_rgb(&self) -> (r: Rgb)
        ensures
            r == self.bg(),
    {
        self.background_rgb
    }

    /// A framebuffer with the given pixels and palette, if there are
    /// [`PIXEL_COUNT`] pixels and each is in one of the two colours.
    pub fn from_parts(pixels: &Vec<Rgb>, foreground: Rgb, background: Rgb) -> (r: Option<Self>)
        ensures
            r is Some <==> (pixels@.len() == PIXEL_COUNT && forall|i: int|
                0 <= i < pixels@.len() ==> #[trigger] pixels@[i] == foreground || pixels@[i]
                    == background),
            r matches Some(b) ==> b.wf() && b.pixels() == pixels@ && b.fg() == foreground && b.bg()
                == background,
    {
        if pixels.len() != PIXEL_COUNT {
            return None;
        }
        let mut vram: Vec<Rgb> = Vec::new();
        let mut i: usize = 0;
        while i < PIXEL_COUNT
            invariant
                0 <= i <= PIXEL_COUNT,
                pixels@.len() == PIXEL_COUNT,
                vram@ == pixels@.take(i as int),
                forall|j: int|
                    0 <= j < i ==> #[trigger] pixels@[j] == foreground || pixels@[j] == background,
            decreases PIXEL_COUNT - i,
        {
            let p = pixels[i];
            if p != foreground && p != background {
                return None;
            }
            vram.push(p);
            assert(vram@ =~= pixels@.take(i + 1));
            i = i + 1;
        }
        assert(vram@ =~= pixels@);
        Some(Buffer { vram, foreground_rgb: foreground, background_rgb: background })
    }

    /// The pixels, row-major.
    pub fn to_pixels(&self) -> (r: Vec<Rgb>)
        requires
            self.wf(),
        ensures
            r@ == self.pixels(),
    {
        let mut r: Vec<Rgb> = Vec::new();
        let mut i: usize = 0;
        while i < PIXEL_COUNT
            invariant
                0 <= i <= PIXEL_COUNT,
                self.wf(),
                r@ == self.pixels().take(i as int),
            decreases PIXEL_COUNT - i,
        {
            r.push(self.vram[i]);
            assert(r@ =~= self.pixels().take(i + 1));
            i = i + 1;
        }
        assert(r@ =~= self.pixels());
        r
    }

    /// XOR-draws the eight bits of `data`, most significant first, onto row
    /// `y` from column `x`, clipping at the right edge; a row past the bottom
    /// draws nothing. Returns whether a set bit met a pixel that was already
    /// on.
    pub fn draw_byte(&mut self, x: usize, y: usize, data: u8) -> (collision: bool)
        requires
            old(self).wf(),
        ensures
            final(self).wf(),
            final(self).fg() == old(self).fg(),
            final(self).bg() == old(self).bg(),
            final(self).pixels() == drawn(old(self).pixels(), old(self).fg(), old(self).bg(), x as int, y as int, data),
            collision == collides(old(self).pixels(), old(self).fg(), x as int, y as int, data),
    {
        if y >= HEIGHT || x >= WIDTH {
            assert(self.pixels() =~= drawn(self.pixels(), self.fg(), self.bg(), x as int, y as int, data));
            return false;
        }
        let max_x: usize = if WIDTH - x < 8 { WIDTH - x } else { 8 };
        let base: usize = WIDTH * y + x;
        let ghost old_pixels = self.pixels();
        let mut collision = false;
        let mut b: usize = 0;
        while b < max_x
            invariant
                old_pixels == old(self).pixels(),
                self.fg() == old(self).fg(),
                self.bg() == old(self).bg(),
                old(self).wf(),
                x < WIDTH,
                y < HEIGHT,
                base == WIDTH * y + x,
                max_x == span(x as int, y as int),
                0 <= b <= max_x,
                self.pixels().len() == PIXEL_COUNT,
                forall|i: int|
                    0 <= i < PIXEL_COUNT ==> #[trigger] self.pixels()[i] == if base <= i < base + b {
                        drawn(old_pixels, self.fg(), self.bg(), x as int, y as int, data)[i]
                    } else {
                        old_pixels[i]
                    },
                collision == exists|c: int|
                    0 <= c < b && #[trigger] sprite_bit(data, c) && old_pixels[base + c] == self.fg(),
            decreases max_x - b,
        {
            let pos: usize = base + b;
            let new_active = (data >> ((7 - b) as u8)) & 1u8 == 1u8;
            let old_active = self.vram[pos] == self.foreground_rgb;
            assert(new_active == sprite_bit(data, b as int));
            assert(old_active == (old_pixels[base + b] == self.fg()));
            if new_active && old_active {
                collision = true;
            }
            let ghost seen = collision;
            assert(seen == exists|c: int|
                0 <= c < b + 1 && #[trigger] sprite_bit(data, c) && old_pixels[base + c] == self.fg()) by {
                if new_active && old_active {
                    assert(sprite_bit(data, b as int) && old_pixels[base + b] == self.fg());
                }
            }
            let color = if new_active != old_active { self.foreground_rgb } else { self.background_rgb };
            self.vram[pos] = color;
            assert(column_at(x as int, y as int, pos as int) == Some(b as int));
            b = b + 1;
        }
        assert(self.pixels() =~= drawn(old_pixels, self.fg(), self.bg(), x as int, y as int, data)) by {
            assert forall|i: int| 0 <= i < PIXEL_COUNT implies #[trigger] self.pixels()[i] == drawn(old_pixels, self.fg(), self.bg(), x as int, y as int, data)[i] by {
                if !(base <= i < base + b) {
                    assert(column_at(x as int, y as int, i) is None);
                }
            }
        }
        collision
    }

    /// Replaces colour `from` by `to` in every pixel.
    fn repaint(&mut self, from: Rgb, to: Rgb)
        requires
            old(self).pixels().len() == PIXEL_COUNT,
        ensures
            final(self).pixels() == recolored(old(self).pixels(), from, to),
            final(self).fg() == old(self).fg(),
            final(self).bg() == old(self).bg(),
    {
        let ghost old_pixels = self.pixels();
        let mut i: usize = 0;
        while i < PIXEL_COUNT
            invariant
                old_pixels == old(self).pixels(),
                old_pixels.len() == PIXEL_COUNT,
                self.fg() == old(self).fg(),
                self.bg() == old(self).bg(),
                0 <= i <= PIXEL_COUNT,
                self.pixels().len() == PIXEL_COUNT,
                forall|j: int|
                    0 <= j < PIXEL_COUNT ==> #[trigger] self.pixels()[j] == if j < i {
                        recolored(old_pixels, from, to)[j]
                    } else {
                        old_pixels[j]
                    },
            decreases PIXEL_COUNT - i,
        {
            if self.vram[i] == from {
                self.vram[i] = to;
            }
            i = i + 1;
        }
        assert(self.pixels() =~= recolored(old_pixels, from, to));
    }

    /// Makes `foreground` the colour of active pixels, repainting every pixel
    /// of the old foreground colour.
    pub fn set_foreground_color(&mut self, foreground: Rgb)
        requires
            old(self).wf(),
        ensures
            final(self).wf(),
            final(self).fg() == foreground,
            final(self).bg() == old(self).bg(),
            final(self).pixels() == recolored(old(self).pixels(), old(self).fg(), foreground),
    {
        let old_color = self.foreground_rgb;
        self.repaint(old_color, foreground);
        self.foreground_rgb = foreground;
    }

    /// Makes `background` the colour of inactive pixels, repainting every
    /// pixel of the old background colour.
    pub fn set_background_color(&mut self, background: Rgb)
        requires
            old(self).wf(),
        ensures
            final(self).wf(),
            final(self).fg() == old(self).fg(),
            final(self).bg() == background,
            final(self).pixels() == recolored(old(self).pixels(), old(self).bg(), background),
    {
        let old_color = self.background_rgb;
        self.repaint(old_color, background);
        self.background_rgb = background;
    }

    /// The pixels row-major, three bytes (red, green, blue) each.
    pub fn as_rgb8(&self) -> (data: [u8; RGB8_LEN])
        requires
            self.wf(),
        ensures
            forall|i: int|
                0 <= i < PIXEL_COUNT ==> {
                    &&& data@[3 * i] == #[trigger] self.pixels()[i].red
                    &&& data@[3 * i + 1] == self.pixels()[i].green
                    &&& data@[3 * i + 2] == self.pixels()[i].blue
                },
    {
        let mut data = [0u8; RGB8_LEN];
        let mut i: usize = 0;
        while i < PIXEL_COUNT
            invariant
                self.wf(),
                0 <= i <= PIXEL_COUNT,
                forall|j: int|
                    0 <= j < i ==> {
                        &&& data@[3 * j] == #[trigger] self.pixels()[j].red
                        &&& data@[3 * j + 1] == self.pixels()[j].green
                        &&& data@[3 * j + 2] == self.pixels()[j].blue
                    },
            decreases PIXEL_COUNT - i,
        {
            let pixel = self.vram[i];
            let offset: usize = i * 3;
            let ghost before = data@;
            data[offset] = pixel.red;
            data[offset + 1] = pixel.green;
            data[offset + 2] = pixel.blue;
            assert(data@ == before.update(offset as int, pixel.red).update(offset + 1, pixel.green).update(offset + 2, pixel.blue));
            i = i + 1;
        }
        data
    }

    /// Sets every pixel to the background colour.
    pub fn clear(&mut self)
        requires
            old(self).wf(),
        ensures
            final(self).wf(),
            final(self).fg() == old(self).fg(),
            final(self).bg() == old(self).bg(),
            final(self).pixels() == Seq::new(PIXEL_COUNT as nat, |i: int| old(self).bg()),
    {
        self.vram = vec![self.background_rgb; PIXEL_COUNT];
        assert(self.pixels() =~= Seq::new(PIXEL_COUNT as nat, |i: int| old(self).bg()));
    }
}

/// Drawing the same sprite byte twice at the same place gives back the grid
/// as it was. When the two palette colours differ, the second draw reports a
/// collision exactly when some set bit of the sprite fell on a pixel that was
/// off before the first draw.
pub proof fn lemma_draw_twice_restores(buf: Buffer, x: usize, y: usize, data: u8)
    requires
        buf.wf(),
    ensures
        ({
            let once = drawn(buf.pixels(), buf.fg(), buf.bg(), x as int, y as int, data);
            &&& drawn(once, buf.fg(), buf.bg(), x as int, y as int, data) == buf.pixels()
            &&& buf.fg() != buf.bg() ==> (collides(once, buf.fg(), x as int, y as int, data)
                <==> exists|b: int|
                0 <= b < span(x as int, y as int) && #[trigger] sprite_bit(data, b) && buf.pixels()[WIDTH
                    * y + x + b] != buf.fg())
        }),
{
    let p = buf.pixels();
    let once = drawn(p, buf.fg(), buf.bg(), x as int, y as int, data);
    assert(drawn(once, buf.fg(), buf.bg(), x as int, y as int, data) =~= p);
    if buf.fg() != buf.bg() {
        if collides(once, buf.fg(), x as int, y as int, data) {
            let b = choose|b: int|
                0 <= b < span(x as int, y as int) && #[trigger] sprite_bit(data, b) && once[WIDTH * y + x
                    + b] == buf.fg();
            assert(column_at(x as int, y as int, WIDTH * y + x + b) == Some(b));
        }
        if exists|b: int|
            0 <= b < span(x as int, y as int) && #[trigger] sprite_bit(data, b) && p[WIDTH * y + x + b]
                != buf.fg() {
            let b = choose|b: int|
                0 <= b < span(x as int, y as int) && #[trigger] sprite_bit(data, b) && p[WIDTH * y + x + b]
                    != buf.fg();
            assert(column_at(x as int, y as int, WIDTH * y + x + b) == Some(b));
        }
    }
}

/// Changing the foreground colour to one that differs from the background
/// keeps the on/off pattern of the grid, and painting the new colour back
/// with the old one gives back the old pixels.
pub proof fn lemma_palette_swap_keeps_pattern(buf: Buffer, foreground: Rgb)
    requires
        buf.wf(),
        buf.fg() != buf.bg(),
        foreground != buf.bg(),
    ensures
        pattern(recolored(buf.pixels(), buf.fg(), foreground), foreground) == buf.lit(),
        recolored(recolored(buf.pixels(), buf.fg(), foreground), foreground, buf.fg())
            == buf.pixels(),
{
    assert(pattern(recolored(buf.pixels(), buf.fg(), foreground), foreground) =~= buf.lit());
    assert(recolored(recolored(buf.pixels(), buf.fg(), foreground), foreground, buf.fg())
        =~= buf.pixels());
}

/// Whether bit `b` of sprite row `k`, drawn at `(x, y)`, is set and falls on
/// a pixel of `old` in colour `fg`.
pub open spec fn overlaps(old: Seq<Rgb>, fg: Rgb, x: int, y: int, rows: Seq<u8>, k: int, b: int) -> bool {
    &&& 0 <= k < rows.len()
    &&& 0 <= b < span(x, y + k)
    &&& sprite_bit(rows[k], b)
    &&& old[WIDTH * (y + k) + x + b] == fg
}

proof fn lemma_column_in_row(x: int, y: int, i: int)
    requires
        column_at(x, y, i) is Some,
    ensures
        i / (WIDTH as int) == y,
{
    let b = i - (WIDTH * y + x);
    assert(0 <= x + b < WIDTH);
    assert(i == WIDTH * y + (x + b));
}

proof fn lemma_other_rows_kept(old: Seq<Rgb>, fg: Rgb, bg: Rgb, x: int, y: int, rows: Seq<u8>, i: int)
    requires
        0 <= i < old.len(),
        i / (WIDTH as int) < y || i / (WIDTH as int) >= y + rows.len(),
    ensures
        sprite_drawn(old, fg, bg, x, y, rows).0.len() == old.len(),
        sprite_drawn(old, fg, bg, x, y, rows).0[i] == old[i],
    decreases rows.len(),
{
    if rows.len() > 0 {
        let k = rows.len() - 1;
        lemma_other_rows_kept(old, fg, bg, x, y, rows.drop_last(), i);
        if column_at(x, y + k, i) is Some {
            lemma_column_in_row(x, y + k, i);
        }
    }
}

/// A sprite draw reports a collision exactly when some set bit of some row
/// falls on a pixel that was in the foreground colour before the draw.
pub proof fn lemma_sprite_collision(old: Seq<Rgb>, fg: Rgb, bg: Rgb, x: int, y: int, rows: Seq<u8>)
    requires
        old.len() == PIXEL_COUNT,
        0 <= x,
        0 <= y,
    ensures
        sprite_drawn(old, fg, bg, x, y, rows).1 <==> exists|k: int, b: int|
            #[trigger] overlaps(old, fg, x, y, rows, k, b),
    decreases rows.len(),
{
    if rows.len() > 0 {
        let k = rows.len() - 1;
        let prev = rows.drop_last();
        let (pixels, collision) = sprite_drawn(old, fg, bg, x, y, prev);
        lemma_sprite_collision(old, fg, bg, x, y, prev);
        assert forall|b: int| 0 <= b < span(x, y + k) implies #[trigger] pixels[WIDTH * (y + k) + x
            + b] == old[WIDTH * (y + k) + x + b] by {
            let i = WIDTH * (y + k) + x + b;
            assert(column_at(x, y + k, i) == Some(b));
            lemma_column_in_row(x, y + k, i);
            lemma_other_rows_kept(old, fg, bg, x, y, prev, i);
        }
        if collision {
            let (k2, b2) = choose|k2: int, b2: int| #[trigger] overlaps(old, fg, x, y, prev, k2, b2);
            assert(overlaps(old, fg, x, y, rows, k2, b2));
        }
        if collides(pixels, fg, x, y + k, rows[k]) {
            let b = choose|b: int|
                0 <= b < span(x, y + k) && #[trigger] sprite_bit(rows[k], b) && pixels[WIDTH * (y
                    + k) + x + b] == fg;
            assert(overlaps(old, fg, x, y, rows, k, b));
        }
        if exists|k2: int, b2: int| #[trigger] overlaps(old, fg, x, y, rows, k2, b2) {
            let (k2, b2) = choose|k2: int, b2: int| #[trigger] overlaps(old, fg, x, y, rows, k2, b2);
            if k2 < k {
                assert(overlaps(old, fg, x, y, prev, k2, b2));
            } else {
                assert(sprite_bit(rows[k], b2) && pixels[WIDTH * (y + k) + x + b2] == fg);
            }
        }
    }
}

} // verus!