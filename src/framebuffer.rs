use vstd::prelude::*;

verus! {

/// Width of the render surface, in pixels.
pub const DISPLAY_WIDTH: usize = 1024;

/// Height of the render surface, in pixels.
pub const DISPLAY_HEIGHT: usize = 768;

/// A colour as red, green and blue intensities.
pub type Rgb = (u8, u8, u8);

/// The packed `0x00RRGGBB` value of a colour.
pub open spec fn packed(c: Rgb) -> u32 {
    (c.0 as int * 0x10000 + c.1 as int * 0x100 + c.2 as int) as u32
}

/// Packs a colour as `0x00RRGGBB`.
pub fn pack_rgb(color: Rgb) -> (r: u32)
    ensures
        r == packed(color),
        r < 0x100_0000,
{
    let (red, green, blue) = (color.0 as u32, color.1 as u32, color.2 as u32);
    let r = red << 16u32 | green << 8u32 | blue;
    assert(r == red * 0x10000 + green * 0x100 + blue && r < 0x100_0000) by (bit_vector)
        requires
            red < 0x100,
            green < 0x100,
            blue < 0x100,
            r == red << 16u32 | green << 8u32 | blue,
    ;
    r
}

/// A fixed-size grid of packed pixels, stored row by row.
pub struct Display {
    width: usize,
    height: usize,
    buffer: Vec<u32>,
}

proof fn lemma_index_in_grid(width: int, height: int, x: int, y: int)
    requires
        0 <= x < width,
        0 <= y < height,
    ensures
        0 <= y * width + x < width * height,
{
    assert(y * width + x < width * height) by (nonlinear_arith)
        requires
            0 <= x < width,
            0 <= y < height,
    ;
    assert(0 <= y * width) by (nonlinear_arith)
        requires
            0 <= y,
            0 <= width,
    ;
}

impl Display {
    pub closed spec fn spec_width(&self) -> nat {
        self.width as nat
    }

    pub closed spec fn spec_height(&self) -> nat {
        self.height as nat
    }

    /// The pixels, row by row.
    pub closed spec fn pixels(&self) -> Seq<u32> {
        self.buffer@
    }

    /// The buffer holds exactly one value per pixel.
    pub open spec fn wf(&self) -> bool {
        self.pixels().len() == self.spec_width() * self.spec_height()
    }

    /// The position of pixel `(x, y)` in [`Display::pixels`].
    pub open spec fn index_of(&self, x: int, y: int) -> int {
        y * self.spec_width() + x
    }

    /// A black surface of the given size.
    pub fn new(width: usize, height: usize) -> (r: Self)
        requires
            width * height <= usize::MAX,
        ensures
            r.wf(),
            r.spec_width() == width,
            r.spec_height() == height,
            r.pixels() == Seq::new((width * height) as nat, |i: int| 0u32),
    {
        let n = width * height;
        let mut buffer: Vec<u32> = Vec::new();
        while buffer.len() < n
            invariant
                buffer@.len() <= n,
                forall|i: int| 0 <= i < buffer@.len() ==> buffer@[i] == 0u32,
            decreases n - buffer@.len(),
        {
            buffer.push(0u32);
        }
        assert(buffer@ == Seq::new(n as nat, |i: int| 0u32));
        Display { width, height, buffer }
    }

    /// Width and height in pixels.
    pub fn size(&self) -> (r: (usize, usize))
        ensures
            r.0 == self.spec_width(),
            r.1 == self.spec_height(),
    {
        (self.width, self.height)
    }

    /// The packed value of pixel `(x, y)`.
    pub fn pixel(&self, x: usize, y: usize) -> (r: u32)
        requires
            self.wf(),
            x < self.spec_width(),
            y < self.spec_height(),
        ensures
            r == self.pixels()[self.index_of(x as int, y as int)],
    {
        let n = self.buffer.len();
        proof {
            lemma_index_in_grid(self.width as int, self.height as int, x as int, y as int);
            assert(y * self.width + x < n);
        }
        self.buffer[y * self.width + x]
    }

    /// Stores the packed colour at pixel `(x, y)`, leaving every other pixel.
    pub fn draw_pixel(&mut self, x: usize, y: usize, color: Rgb)
        requires
            old(self).wf(),
            x < old(self).spec_width(),
            y < old(self).spec_height(),
        ensures
            final(self).wf(),
            final(self).spec_width() == old(self).spec_width(),
            final(self).spec_height() == old(self).spec_height(),
            final(self).pixels() == old(self).pixels().update(
                old(self).index_of(x as int, y as int),
                packed(color),
            ),
    {
        let n = self.buffer.len();
        proof {
            lemma_index_in_grid(self.width as int, self.height as int, x as int, y as int);
            assert(y * self.width + x < n);
        }
        let i = y * self.width + x;
        let c = pack_rgb(color);
        self.buffer.set(i, c);
    }

    /// All pixels, row by row, for a presentation sink to copy.
    pub fn frame(&self) -> (r: &[u32])
        ensures
            r@ == self.pixels(),
    {
        self.buffer.as_slice()
    }

    /// Copies every pixel into `surface`, a presentation buffer of the same length.
    pub fn copy_frame(&self, surface: &mut Vec<u32>)
        requires
            old(surface)@.len() == self.pixels().len(),
        ensures
            final(surface)@ == self.pixels(),
    {
        let n = self.buffer.len();
        let mut i: usize = 0;
        while i < n
            invariant
                n == self.buffer@.len(),
                surface@.len() == n,
                i <= n,
                forall|j: int| 0 <= j < i ==> surface@[j] == self.buffer@[j],
            decreases n - i,
        {
            surface.set(i, self.buffer[i]);
            i = i + 1;
        }
        assert(surface@ == self.buffer@);
    }
}

impl Default for Display {
    /// A black surface of `DISPLAY_WIDTH` by `DISPLAY_HEIGHT` pixels.
    fn default() -> (r: Self)
        ensures
            r.wf(),
            r.spec_width() == DISPLAY_WIDTH,
            r.spec_height() == DISPLAY_HEIGHT,
            r.pixels() == Seq::new((DISPLAY_WIDTH * DISPLAY_HEIGHT) as nat, |i: int| 0u32),
    {
        Display::new(DISPLAY_WIDTH, DISPLAY_HEIGHT)
    }
}

} // verus!
