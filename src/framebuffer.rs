//! The off-device framebuffer with its rotation-aware bit packing, and the dirty
//! region that bounds the pixels changed since the last flush.
use vstd::prelude::*;
use vstd::arithmetic::div_mod::lemma_fundamental_div_mod_converse;
use crate::geometry::{DisplayRotation, DisplaySize, logical_dims};

verus! {

/// Bytes in a framebuffer: enough for the largest supported panel.
pub const BUFFER_SIZE: usize = 1024;

/// `(x, y)` is a pixel of the panel seen under `rotation`.
pub open spec fn in_bounds(size: DisplaySize, rotation: DisplayRotation, x: int, y: int) -> bool {
    0 <= x < logical_dims(size, rotation).0 && 0 <= y < logical_dims(size, rotation).1
}

/// Physical column of logical pixel `(x, y)`: a quarter turn swaps the axes.
pub open spec fn phys_col(rotation: DisplayRotation, x: int, y: int) -> int {
    if rotation.is_quarter() { y } else { x }
}

/// Physical row of logical pixel `(x, y)`.
pub open spec fn phys_row(rotation: DisplayRotation, x: int, y: int) -> int {
    if rotation.is_quarter() { x } else { y }
}

/// Index of the byte that holds logical pixel `(x, y)`: pages are rows of bytes.
pub open spec fn pixel_index(size: DisplaySize, rotation: DisplayRotation, x: int, y: int) -> int {
    (phys_row(rotation, x, y) / 8) * size.width() + phys_col(rotation, x, y)
}

/// The bit of that byte that holds the pixel.
pub open spec fn pixel_bit(rotation: DisplayRotation, x: int, y: int) -> u8 {
    (phys_row(rotation, x, y) % 8) as u8
}

/// `b` with bit `bit` set (on) or cleared.
pub open spec fn with_bit(b: u8, bit: u8, on: bool) -> u8 {
    if on { b | (1u8 << bit) } else { b & !(1u8 << bit) }
}

/// Bit `bit` of `b`.
pub open spec fn bit_of(b: u8, bit: u8) -> bool {
    (b >> bit) & 1u8 == 1u8
}

/// Framebuffer contents after turning logical pixel `(x, y)` on or off.
pub open spec fn write_pixel(fb: Seq<u8>, size: DisplaySize, rotation: DisplayRotation, x: int, y: int, on: bool) -> Seq<u8> {
    let i = pixel_index(size, rotation, x, y);
    fb.update(i, with_bit(fb[i], pixel_bit(rotation, x, y), on))
}

/// Whether logical pixel `(x, y)` is on in the framebuffer contents `fb`.
pub open spec fn read_pixel(fb: Seq<u8>, size: DisplaySize, rotation: DisplayRotation, x: int, y: int) -> bool {
    bit_of(fb[pixel_index(size, rotation, x, y)], pixel_bit(rotation, x, y))
}

/// A pixel of the panel lies in the active part of the framebuffer, at the page and
/// column it is drawn at.
pub proof fn lemma_pixel_index(size: DisplaySize, rotation: DisplayRotation, x: int, y: int)
    requires
        in_bounds(size, rotation, x, y),
    ensures
        0 <= pixel_index(size, rotation, x, y) < size.active_len(),
        pixel_index(size, rotation, x, y) / (size.width() as int) == phys_row(rotation, x, y) / 8,
        pixel_index(size, rotation, x, y) % (size.width() as int) == phys_col(rotation, x, y),
        pixel_bit(rotation, x, y) < 8,
{
    size.lemma_bounds();
    let w = size.width() as int;
    let page = phys_row(rotation, x, y) / 8;
    let col = phys_col(rotation, x, y);
    assert(0 <= page < size.pages());
    assert(page * w + col < size.pages() * w) by (nonlinear_arith)
        requires 0 <= page < size.pages(), 0 <= col < w;
    assert(0 <= page * w) by (nonlinear_arith)
        requires 0 <= page, 0 <= w;
    lemma_fundamental_div_mod_converse(page * w + col, w, page, col);
}

/// Turning a bit on or off and reading it back gives what was written.
pub proof fn lemma_bit_round_trip(b: u8, bit: u8, on: bool)
    requires
        bit < 8,
    ensures
        bit_of(with_bit(b, bit, on), bit) == on,
{
    if on {
        assert(((b | (1u8 << bit)) >> bit) & 1u8 == 1u8) by (bit_vector)
            requires bit < 8u8;
    } else {
        assert(((b & !(1u8 << bit)) >> bit) & 1u8 == 0u8) by (bit_vector)
            requires bit < 8u8;
    }
}

/// Turning a pixel of the panel on or off and decoding the same logical pixel back
/// gives what was written, under every rotation.
pub proof fn lemma_pixel_round_trip(fb: Seq<u8>, size: DisplaySize, rotation: DisplayRotation, x: int, y: int, on: bool)
    requires
        fb.len() == BUFFER_SIZE,
        in_bounds(size, rotation, x, y),
    ensures
        read_pixel(write_pixel(fb, size, rotation, x, y, on), size, rotation, x, y) == on,
{
    lemma_pixel_index(size, rotation, x, y);
    size.lemma_bounds();
    lemma_bit_round_trip(fb[pixel_index(size, rotation, x, y)], pixel_bit(rotation, x, y), on);
}

/// The in-memory copy of the controller's display memory. Byte `page * width + column`
/// holds the 8 pixels of that column in that page, bit `k` being row `page * 8 + k`.
/// Only the first `width * pages` bytes belong to the panel in use.
pub struct FrameBuffer {
    bytes: Vec<u8>,
}

impl View for FrameBuffer {
    type V = Seq<u8>;

    closed spec fn view(&self) -> Seq<u8> {
        self.bytes@
    }
}

impl FrameBuffer {
    /// The buffer has its full size.
    pub open spec fn wf(&self) -> bool {
        self@.len() == BUFFER_SIZE
    }

    /// A framebuffer with every pixel off.
    pub fn new() -> (r: FrameBuffer)
        ensures
            r.wf(),
            forall|i: int| 0 <= i < BUFFER_SIZE ==> r@[i] == 0,
    {
        let mut bytes: Vec<u8> = Vec::new();
        while bytes.len() < BUFFER_SIZE
            invariant
                bytes@.len() <= BUFFER_SIZE,
                forall|i: int| 0 <= i < bytes@.len() ==> bytes@[i] == 0,
            decreases BUFFER_SIZE - bytes@.len(),
        {
            bytes.push(0);
        }
        FrameBuffer { bytes }
    }

    /// Turns every pixel off.
    pub fn clear(&mut self)
        requires
            old(self).wf(),
        ensures
            final(self).wf(),
            forall|i: int| 0 <= i < BUFFER_SIZE ==> final(self)@[i] == 0,
    {
        let mut i: usize = 0;
        while i < self.bytes.len()
            invariant
                self.bytes@.len() == BUFFER_SIZE,
                i <= BUFFER_SIZE,
                forall|j: int| 0 <= j < i ==> self.bytes@[j] == 0,
            decreases BUFFER_SIZE - i,
        {
            self.bytes[i] = 0;
            i = i + 1;
        }
    }

    /// Turns logical pixel `(x, y)` on or off. A pixel outside the panel seen under
    /// `rotation` is ignored; the result says whether the pixel was written.
    pub fn set_pixel(&mut self, size: DisplaySize, rotation: DisplayRotation, x: u32, y: u32, on: bool) -> (written: bool)
        requires
            old(self).wf(),
        ensures
            final(self).wf(),
            written == in_bounds(size, rotation, x as int, y as int),
            written ==> final(self)@ == write_pixel(old(self)@, size, rotation, x as int, y as int, on),
            !written ==> final(self)@ == old(self)@,
    {
        proof {
            size.lemma_bounds();
        }
        let (width, height) = size.dimensions();
        let quarter = match rotation {
            DisplayRotation::Rotate90 | DisplayRotation::Rotate270 => true,
            _ => false,
        };
        let (col, row) = if quarter { (y, x) } else { (x, y) };
        if col >= width as u32 || row >= height as u32 {
            return false;
        }
        proof {
            lemma_pixel_index(size, rotation, x as int, y as int);
        }
        let idx: usize = (row / 8) as usize * width as usize + col as usize;
        let bit: u8 = (row % 8) as u8;
        let byte = self.bytes[idx];
        let updated = if on { byte | (1u8 << bit) } else { byte & !(1u8 << bit) };
        self.bytes[idx] = updated;
        assert(self.bytes@ =~= write_pixel(old(self)@, size, rotation, x as int, y as int, on));
        true
    }

    /// Whether logical pixel `(x, y)` is on; a pixel outside the panel reads as off.
    pub fn get_pixel(&self, size: DisplaySize, rotation: DisplayRotation, x: u32, y: u32) -> (r: bool)
        requires
            self.wf(),
        ensures
            r == (in_bounds(size, rotation, x as int, y as int) && read_pixel(self@, size, rotation, x as int, y as int)),
    {
        proof {
            size.lemma_bounds();
        }
        let (width, height) = size.dimensions();
        let quarter = match rotation {
            DisplayRotation::Rotate90 | DisplayRotation::Rotate270 => true,
            _ => false,
        };
        let (col, row) = if quarter { (y, x) } else { (x, y) };
        if col >= width as u32 || row >= height as u32 {
            return false;
        }
        proof {
            lemma_pixel_index(size, rotation, x as int, y as int);
        }
        let idx: usize = (row / 8) as usize * width as usize + col as usize;
        let bit: u8 = (row % 8) as u8;
        (self.bytes[idx] >> bit) & 1u8 == 1u8
    }

    /// All bytes of the framebuffer.
    pub fn as_slice(&self) -> (r: &[u8])
        ensures
            r@ == self@,
    {
        self.bytes.as_slice()
    }
}

/// The smallest rectangle, in logical pixel coordinates, known to bound every pixel
/// changed since the last flush. It is empty when `min_x > max_x`.
pub struct DirtyRegion {
    min_x: u8,
    max_x: u8,
    min_y: u8,
    max_y: u8,
}

impl View for DirtyRegion {
    /// `(min_x, max_x, min_y, max_y)`
    type V = (u8, u8, u8, u8);

    closed spec fn view(&self) -> (u8, u8, u8, u8) {
        (self.min_x, self.max_x, self.min_y, self.max_y)
    }
}

/// The empty region.
pub open spec fn empty_bounds() -> (u8, u8, u8, u8) {
    (255u8, 0u8, 255u8, 0u8)
}

/// A region is empty exactly when its bounds are crossed.
pub open spec fn bounds_empty(b: (u8, u8, u8, u8)) -> bool {
    b.0 > b.1 || b.2 > b.3
}

/// The point lies in the region.
pub open spec fn bounds_contain(b: (u8, u8, u8, u8), x: int, y: int) -> bool {
    b.0 <= x <= b.1 && b.2 <= y <= b.3
}

/// The bounds after widening to include `(x, y)`.
pub open spec fn widened(b: (u8, u8, u8, u8), x: u8, y: u8) -> (u8, u8, u8, u8) {
    if bounds_empty(b) {
        (x, x, y, y)
    } else {
        (
            if x < b.0 { x } else { b.0 },
            if x > b.1 { x } else { b.1 },
            if y < b.2 { y } else { b.2 },
            if y > b.3 { y } else { b.3 },
        )
    }
}

impl DirtyRegion {
    /// An empty region.
    pub fn new() -> (r: DirtyRegion)
        ensures
            r@ == empty_bounds(),
    {
        DirtyRegion { min_x: 255, max_x: 0, min_y: 255, max_y: 0 }
    }

    /// True when no pixel is marked.
    pub fn is_empty(&self) -> (r: bool)
        ensures
            r == bounds_empty(self@),
    {
        self.max_x < self.min_x || self.max_y < self.min_y
    }

    /// Grows the region to include `(x, y)`. On an empty region all four bounds become
    /// that point.
    pub fn widen(&mut self, x: u8, y: u8)
        ensures
            final(self)@ == widened(old(self)@, x, y),
    {
        if self.is_empty() {
            self.min_x = x;
            self.max_x = x;
            self.min_y = y;
            self.max_y = y;
        } else {
            if x < self.min_x {
                self.min_x = x;
            }
            if x > self.max_x {
                self.max_x = x;
            }
            if y < self.min_y {
                self.min_y = y;
            }
            if y > self.max_y {
                self.max_y = y;
            }
        }
    }

    /// Empties the region.
    pub fn reset(&mut self)
        ensures
            final(self)@ == empty_bounds(),
    {
        self.min_x = 255;
        self.max_x = 0;
        self.min_y = 255;
        self.max_y = 0;
    }

    /// Marks the whole `width` by `height` frame.
    pub fn cover(&mut self, width: u8, height: u8)
        requires
            width > 0,
            height > 0,
        ensures
            final(self)@ == ((0u8, (width - 1) as u8, 0u8, (height - 1) as u8)),
    {
        self.min_x = 0;
        self.max_x = width - 1;
        self.min_y = 0;
        self.max_y = height - 1;
    }

    /// `(min_x, max_x, min_y, max_y)`.
    pub fn bounds(&self) -> (r: (u8, u8, u8, u8))
        ensures
            r == self@,
    {
        (self.min_x, self.max_x, self.min_y, self.max_y)
    }
}

} // verus!
