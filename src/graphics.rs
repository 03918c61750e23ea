//! Buffered graphics mode: pixel drawing into the framebuffer, and the full and
//! bounded flushes that bring the controller's memory in line with it.
use vstd::prelude::*;
use vstd::arithmetic::div_mod::lemma_fundamental_div_mod_converse;
use crate::framebuffer::{
    bounds_contain, bounds_empty, empty_bounds, in_bounds, lemma_pixel_index, phys_col, phys_row,
    pixel_index, read_pixel, widened, write_pixel, DirtyRegion, FrameBuffer, BUFFER_SIZE,
};
use crate::geometry::{AddrMode, DisplayRotation, DisplaySize, logical_dims};
use crate::interface::{
    as_commands, BusOp, DisplayInterface,
};
use crate::properties::{band_ops, drawn_pages, init_bytes, lemma_outcome_failed, lemma_outcome_then, outcome, rotation_bytes, window_bytes, DisplayProperties, Error};
use crate::command::{command_bytes, Command};

verus! {

/// The page-aligned physical rectangle that a bounded flush sends for the dirty bounds
/// `d`, clamped to the panel: `(first column, last column, first page, last page)`,
/// all inclusive. Under a quarter turn logical x runs along the physical rows.
pub open spec fn flush_window(size: DisplaySize, rotation: DisplayRotation, d: (u8, u8, u8, u8)) -> (int, int, int, int) {
    let w = size.width() as int;
    let pages = size.pages() as int;
    let c0 = phys_col(rotation, d.0 as int, d.2 as int);
    let c1 = phys_col(rotation, d.1 as int, d.3 as int);
    let r0 = phys_row(rotation, d.0 as int, d.2 as int);
    let r1 = phys_row(rotation, d.1 as int, d.3 as int);
    (
        if c0 < w { c0 } else { w - 1 },
        if c1 < w { c1 } else { w - 1 },
        if r0 / 8 < pages { r0 / 8 } else { pages - 1 },
        if r1 / 8 < pages { r1 / 8 } else { pages - 1 },
    )
}

/// What a full flush sends: the whole panel as draw window, then the active part of
/// the framebuffer in one payload.
pub open spec fn full_flush_ops(size: DisplaySize, fb: Seq<u8>) -> Seq<BusOp> {
    as_commands(window_bytes((0u8, 0u8), (size.width() as u8, size.height() as u8)))
        + seq![BusOp::Data(fb.take(size.active_len() as int))]
}

/// What a bounded flush sends for the window `(c0, c1, p0, p1)`: that window, then one
/// payload per page band, from the top.
pub open spec fn bounded_flush_ops(size: DisplaySize, fb: Seq<u8>, win: (int, int, int, int)) -> Seq<BusOp> {
    as_commands(window_bytes((win.0 as u8, (win.2 * 8) as u8), ((win.1 + 1) as u8, ((win.3 + 1) * 8) as u8)))
        + band_ops(fb, size.width() as int, win.0, win.1 + 1, win.2, win.3 - win.2 + 1)
}

/// Byte `i` of a panel `w` columns wide lies inside the window `(c0, c1, p0, p1)`.
pub open spec fn in_window(win: (int, int, int, int), w: int, i: int) -> bool {
    win.0 <= i % w <= win.1 && win.2 <= i / w <= win.3
}

/// Display memory `mem` after the payloads `bands` were written into the window
/// `(c0, c1, p0, p1)`, one band per page.
pub open spec fn write_bands(mem: Seq<u8>, w: int, win: (int, int, int, int), bands: Seq<BusOp>) -> Seq<u8> {
    Seq::new(
        mem.len(),
        |i: int|
            if in_window(win, w, i) {
                bands[i / w - win.2]->Data_0[i % w - win.0]
            } else {
                mem[i]
            },
    )
}

/// A window that lies inside the panel.
pub open spec fn window_inside(size: DisplaySize, win: (int, int, int, int)) -> bool {
    0 <= win.0 <= win.1 < size.width() && 0 <= win.2 <= win.3 < size.pages()
}

/// Display memory `mem` differs from the framebuffer `fb` at most inside the window that
/// a bounded flush sends for the dirty bounds `d`; with nothing dirty, not at all.
pub open spec fn synced_outside(size: DisplaySize, rotation: DisplayRotation, d: (u8, u8, u8, u8), mem: Seq<u8>, fb: Seq<u8>) -> bool {
    forall|i: int|
        0 <= i < size.active_len() && (bounds_empty(d) || !in_window(flush_window(size, rotation, d), size.width() as int, i))
            ==> #[trigger] mem[i] == fb[i]
}

/// Writing the bands of a bounded flush into display memory that matched the
/// framebuffer outside the window leaves display memory equal to the framebuffer's
/// active part, which is exactly the payload of a full flush.
pub proof fn lemma_bounded_flush_matches_full(
    size: DisplaySize,
    rotation: DisplayRotation,
    d: (u8, u8, u8, u8),
    mem: Seq<u8>,
    fb: Seq<u8>,
)
    requires
        fb.len() == BUFFER_SIZE,
        mem.len() == size.active_len(),
        !bounds_empty(d),
        synced_outside(size, rotation, d, mem, fb),
    ensures
        ({
            let win = flush_window(size, rotation, d);
            let w = size.width() as int;
            write_bands(mem, w, win, band_ops(fb, w, win.0, win.1 + 1, win.2, win.3 - win.2 + 1))
                == fb.take(size.active_len() as int)
        }),
        full_flush_ops(size, fb).last() == BusOp::Data(fb.take(size.active_len() as int)),
{
    size.lemma_bounds();
    let win = flush_window(size, rotation, d);
    let w = size.width() as int;
    let r0 = phys_row(rotation, d.0 as int, d.2 as int);
    let r1 = phys_row(rotation, d.1 as int, d.3 as int);
    vstd::arithmetic::div_mod::lemma_div_is_ordered(r0, r1, 8);
    assert(window_inside(size, win));
    let bands = band_ops(fb, w, win.0, win.1 + 1, win.2, win.3 - win.2 + 1);
    let after = write_bands(mem, w, win, bands);
    assert forall|i: int| 0 <= i < mem.len() implies after[i] == fb[i] by {
        if in_window(win, w, i) {
            let p = i / w;
            let c = i % w;
            vstd::arithmetic::div_mod::lemma_fundamental_div_mod(i, w);
            assert(i == w * p + c);
            assert(p * w == w * p) by (nonlinear_arith);
            assert(p * w + win.0 >= 0) by (nonlinear_arith)
                requires p >= 0, w >= 0, win.0 >= 0;
            assert(p * w + win.1 + 1 <= size.active_len()) by (nonlinear_arith)
                requires p < size.pages(), win.1 < w, size.active_len() == w * size.pages();
        } else {
            assert(mem[i] == fb[i]);
        }
    }
    assert(after =~= fb.take(size.active_len() as int));
}

/// Every pixel of the panel inside the dirty bounds lies, in the framebuffer, inside the
/// window that a bounded flush sends for those bounds.
pub proof fn lemma_window_covers(size: DisplaySize, rotation: DisplayRotation, d: (u8, u8, u8, u8), x: int, y: int)
    requires
        in_bounds(size, rotation, x, y),
        bounds_contain(d, x, y),
    ensures
        in_window(flush_window(size, rotation, d), size.width() as int, pixel_index(size, rotation, x, y)),
        window_inside(size, flush_window(size, rotation, d)),
{
    size.lemma_bounds();
    lemma_pixel_index(size, rotation, x, y);
    let r0 = phys_row(rotation, d.0 as int, d.2 as int);
    let r1 = phys_row(rotation, d.1 as int, d.3 as int);
    let r = phys_row(rotation, x, y);
    assert(r0 / 8 <= r / 8) by {
        vstd::arithmetic::div_mod::lemma_div_is_ordered(r0, r, 8);
    }
    assert(r / 8 <= r1 / 8) by {
        vstd::arithmetic::div_mod::lemma_div_is_ordered(r, r1, 8);
    }
}

/// Drawing a pixel and widening the dirty bounds to it keeps display memory and
/// framebuffer apart only inside the window of the widened bounds.
pub proof fn lemma_set_pixel_keeps_sync(
    size: DisplaySize,
    rotation: DisplayRotation,
    d: (u8, u8, u8, u8),
    mem: Seq<u8>,
    fb: Seq<u8>,
    x: int,
    y: int,
    on: bool,
)
    requires
        fb.len() == BUFFER_SIZE,
        mem.len() == size.active_len(),
        in_bounds(size, rotation, x, y),
        synced_outside(size, rotation, d, mem, fb),
    ensures
        synced_outside(size, rotation, widened(d, x as u8, y as u8), mem, write_pixel(fb, size, rotation, x, y, on)),
{
    size.lemma_bounds();
    let d2 = widened(d, x as u8, y as u8);
    assert(bounds_contain(d2, x, y));
    lemma_window_covers(size, rotation, d2, x, y);
    lemma_pixel_index(size, rotation, x, y);
    let idx = pixel_index(size, rotation, x, y);
    let fb2 = write_pixel(fb, size, rotation, x, y, on);
    let w = size.width() as int;
    assert forall|i: int|
        0 <= i < size.active_len() && (bounds_empty(d2) || !in_window(flush_window(size, rotation, d2), w, i))
        implies #[trigger] mem[i] == fb2[i] by {
        assert(!bounds_empty(d2));
        assert(i != idx);
        assert(fb2[i] == fb[i]);
        if !bounds_empty(d) {
            let r0 = phys_row(rotation, d.0 as int, d.2 as int);
            let r1 = phys_row(rotation, d.1 as int, d.3 as int);
            let s0 = phys_row(rotation, d2.0 as int, d2.2 as int);
            let s1 = phys_row(rotation, d2.1 as int, d2.3 as int);
            vstd::arithmetic::div_mod::lemma_div_is_ordered(s0, r0, 8);
            vstd::arithmetic::div_mod::lemma_div_is_ordered(r1, s1, 8);
            assert(!in_window(flush_window(size, rotation, d), w, i));
        }
    }
}

/// Graphics mode: a framebuffer in front of the display, with dirty-region tracking.
pub struct GraphicsMode<DI> {
    properties: DisplayProperties<DI>,
    buffer: FrameBuffer,
    dirty: DirtyRegion,
}

impl<DI: DisplayInterface> GraphicsMode<DI> {
    /// The display properties, with the channel and its history.
    pub closed spec fn props(&self) -> DisplayProperties<DI> {
        self.properties
    }

    /// The framebuffer's bytes.
    pub closed spec fn fb(&self) -> Seq<u8> {
        self.buffer@
    }

    /// The dirty bounds.
    pub closed spec fn region(&self) -> (u8, u8, u8, u8) {
        self.dirty@
    }

    /// The framebuffer has its full size, and the dirty bounds are crossed in x exactly
    /// when they are crossed in y.
    pub open spec fn wf(&self) -> bool {
        &&& self.fb().len() == BUFFER_SIZE
        &&& (self.region().0 > self.region().1) == (self.region().2 > self.region().3)
    }

    /// The panel size.
    pub open spec fn size(&self) -> DisplaySize {
        self.props().size()
    }

    /// The display rotation.
    pub open spec fn rotation(&self) -> DisplayRotation {
        self.props().rotation()
    }

    /// The addressing mode as last set.
    pub open spec fn mode(&self) -> AddrMode {
        self.props().mode()
    }

    /// What the channel has accepted, oldest first.
    pub open spec fn bus(&self) -> Seq<BusOp> {
        self.props().bus()
    }

    /// Graphics mode over the given display properties, with every pixel off and
    /// nothing marked dirty.
    pub fn new(properties: DisplayProperties<DI>) -> (r: Self)
        ensures
            r.wf(),
            r.props() == properties,
            forall|i: int| 0 <= i < BUFFER_SIZE ==> r.fb()[i] == 0,
            r.region() == empty_bounds(),
    {
        GraphicsMode { properties, buffer: FrameBuffer::new(), dirty: DirtyRegion::new() }
    }

    /// The display properties.
    pub fn properties(&self) -> (r: &DisplayProperties<DI>)
        ensures
            *r == self.props(),
    {
        &self.properties
    }

    /// Hands the display properties back.
    pub fn release(self) -> (r: DisplayProperties<DI>)
        ensures
            r == self.props(),
    {
        self.properties
    }

    /// Turns every pixel off and marks the whole frame dirty, so the next flush
    /// clears the screen. Nothing is sent.
    pub fn clear(&mut self)
        requires
            old(self).wf(),
        ensures
            final(self).wf(),
            final(self).props() == old(self).props(),
            forall|i: int| 0 <= i < BUFFER_SIZE ==> final(self).fb()[i] == 0,
            final(self).region() == ((
                0u8,
                (logical_dims(old(self).size(), old(self).rotation()).0 - 1) as u8,
                0u8,
                (logical_dims(old(self).size(), old(self).rotation()).1 - 1) as u8,
            )),
    {
        self.buffer.clear();
        let (width, height) = self.properties.get_dimensions();
        proof {
            self.properties.size().lemma_bounds();
        }
        self.dirty.cover(width, height);
    }

    /// Sends the whole active framebuffer: the full panel as draw window, then one
    /// payload. Needs horizontal or vertical addressing mode. The dirty region is
    /// emptied once everything was sent.
    pub fn flush(&mut self) -> (r: Result<(), Error<DI::Error>>)
        requires
            old(self).wf(),
        ensures
            final(self).wf(),
            final(self).props().same_state(&old(self).props()),
            final(self).fb() == old(self).fb(),
            old(self).mode() == AddrMode::Page ==> r is Err && r->Err_0 is InvalidMode && *final(self) == *old(self),
            old(self).mode() != AddrMode::Page ==> outcome(old(self).bus(), final(self).bus(), full_flush_ops(old(self).size(), old(self).fb()), r, old(self).props().iface().refused(), final(self).props().iface().refused()),
            final(self).region() == (if r is Ok { empty_bounds() } else { old(self).region() }),
    {
        let ghost before = self.bus();
        let size = self.properties.get_size();
        proof {
            size.lemma_bounds();
        }
        let (width, height) = size.dimensions();
        let ghost cmds = as_commands(window_bytes((0u8, 0u8), (width, height)));
        let ghost data = seq![BusOp::Data(self.buffer@.take(size.active_len() as int))];
        let ghost f0 = self.props().iface().refused();
        let r1 = self.properties.set_draw_area((0, 0), (width, height));
        if r1.is_err() {
            proof {
                if self.mode() != AddrMode::Page {
                    lemma_outcome_failed(before, self.bus(), cmds, data, r1, r1, f0, self.props().iface().refused());
                }
            }
            return r1;
        }
        let ghost mid = self.bus();
        let ghost f1 = self.props().iface().refused();
        let active: usize = (width as usize) * ((height / 8) as usize);
        let slice = vstd::slice::slice_subrange(self.buffer.as_slice(), 0, active);
        assert(slice@ =~= self.buffer@.take(size.active_len() as int));
        let r = self.properties.draw(slice);
        proof {
            lemma_outcome_then(before, mid, self.bus(), cmds, data, r1, r, f0, f1, self.props().iface().refused());
        }
        if r.is_ok() {
            self.dirty.reset();
        }
        r
    }

    /// Sends only what changed since the last flush: the page-aligned rectangle that
    /// covers the dirty region, clamped to the panel, as draw window, then one payload
    /// per page band from the top. With nothing dirty this is a full flush. Needs
    /// horizontal or vertical addressing mode. The rectangle is sent whatever its size,
    /// so what reaches the controller is always exactly the covering rectangle. The
    /// dirty region is emptied once everything was sent.
    pub fn fast_flush(&mut self) -> (r: Result<(), Error<DI::Error>>)
        requires
            old(self).wf(),
        ensures
            final(self).wf(),
            final(self).props().same_state(&old(self).props()),
            final(self).fb() == old(self).fb(),
            old(self).mode() == AddrMode::Page ==> r is Err && r->Err_0 is InvalidMode && *final(self) == *old(self),
            old(self).mode() != AddrMode::Page && bounds_empty(old(self).region()) ==> outcome(
                old(self).bus(),
                final(self).bus(),
                full_flush_ops(old(self).size(), old(self).fb()),
                r,
                old(self).props().iface().refused(),
                final(self).props().iface().refused(),
            ),
            old(self).mode() != AddrMode::Page && !bounds_empty(old(self).region()) ==> outcome(
                old(self).bus(),
                final(self).bus(),
                bounded_flush_ops(
                    old(self).size(),
                    old(self).fb(),
                    flush_window(old(self).size(), old(self).rotation(), old(self).region()),
                ),
                r,
                old(self).props().iface().refused(),
                final(self).props().iface().refused(),
            ),
            final(self).region() == (if r is Ok { empty_bounds() } else { old(self).region() }),
    {
        if self.dirty.is_empty() {
            return self.flush();
        }
        let ghost before = self.bus();
        let size = self.properties.get_size();
        let rotation = self.properties.get_rotation();
        proof {
            size.lemma_bounds();
        }
        let (width, height) = size.dimensions();
        let pages: u8 = height / 8;
        let (min_x, max_x, min_y, max_y) = self.dirty.bounds();
        let quarter = match rotation {
            DisplayRotation::Rotate90 | DisplayRotation::Rotate270 => true,
            _ => false,
        };
        let (c0, c1, r0, r1) = if quarter { (min_y, max_y, min_x, max_x) } else { (min_x, max_x, min_y, max_y) };
        let col_start: u8 = if c0 < width { c0 } else { width - 1 };
        let col_last: u8 = if c1 < width { c1 } else { width - 1 };
        let first_page: u8 = if r0 / 8 < pages { r0 / 8 } else { pages - 1 };
        let last_page: u8 = if r1 / 8 < pages { r1 / 8 } else { pages - 1 };
        let ghost win = flush_window(size, rotation, self.dirty@);
        assert(win == (col_start as int, col_last as int, first_page as int, last_page as int));
        let col_end: u8 = col_last + 1;
        let upper_left = (col_start, first_page * 8);
        let window_end = (col_end, (last_page + 1) * 8);
        let lower_right = (col_end, last_page * 8);
        let ghost cmds = as_commands(window_bytes(upper_left, window_end));
        let ghost bands = band_ops(self.buffer@, width as int, col_start as int, col_end as int, first_page as int, last_page - first_page + 1);
        let ghost f0 = self.props().iface().refused();
        let r1 = self.properties.set_draw_area(upper_left, window_end);
        if r1.is_err() {
            proof {
                if self.mode() != AddrMode::Page {
                    lemma_outcome_failed(before, self.bus(), cmds, bands, r1, r1, f0, self.props().iface().refused());
                }
            }
            return r1;
        }
        let ghost mid = self.bus();
        let ghost f1 = self.props().iface().refused();
        assert((((last_page + 1) * 8 - 1) / 8) as int == last_page as int);
        assert(((first_page * 8) / 8 + (last_page * 8 - first_page * 8) / 8) as int == last_page as int);
        assert((last_page as int + 1) * (width as int) <= BUFFER_SIZE) by (nonlinear_arith)
            requires last_page < pages, pages * 8 == height, height <= 64, width <= 128;
        proof {
            let n = last_page as int + 1;
            let w = width as int;
            vstd::arithmetic::div_mod::lemma_div_is_ordered(n * w, BUFFER_SIZE as int, w);
            vstd::arithmetic::div_mod::lemma_div_by_multiple(n, w);
            assert(drawn_pages(BUFFER_SIZE as int, w, (first_page * 8) as int, (last_page * 8) as int)
                == last_page - first_page + 1);
        }
        let r = self.properties.bounded_draw(self.buffer.as_slice(), width as usize, upper_left, lower_right);
        proof {
            lemma_outcome_then(before, mid, self.bus(), cmds, bands, r1, r, f0, f1, self.props().iface().refused());
        }
        if r.is_ok() {
            self.dirty.reset();
        }
        r
    }

    /// Turns logical pixel `(x, y)` on (`value` other than 0) or off (`value` 0) and
    /// marks it dirty. A pixel outside the panel seen under the current rotation is
    /// ignored.
    pub fn set_pixel(&mut self, x: u32, y: u32, value: u8)
        requires
            old(self).wf(),
        ensures
            final(self).wf(),
            final(self).props() == old(self).props(),
            in_bounds(old(self).size(), old(self).rotation(), x as int, y as int) ==> {
                &&& final(self).fb() == write_pixel(old(self).fb(), old(self).size(), old(self).rotation(), x as int, y as int, value != 0)
                &&& final(self).region() == widened(old(self).region(), x as u8, y as u8)
            },
            !in_bounds(old(self).size(), old(self).rotation(), x as int, y as int) ==> {
                &&& final(self).fb() == old(self).fb()
                &&& final(self).region() == old(self).region()
            },
    {
        let size = self.properties.get_size();
        let rotation = self.properties.get_rotation();
        let written = self.buffer.set_pixel(size, rotation, x, y, value != 0);
        if written {
            proof {
                size.lemma_bounds();
            }
            self.dirty.widen(x as u8, y as u8);
        }
    }

    /// Whether logical pixel `(x, y)` is on in the framebuffer; a pixel outside the
    /// panel reads as off.
    pub fn get_pixel(&self, x: u32, y: u32) -> (r: bool)
        requires
            self.wf(),
        ensures
            r == (in_bounds(self.size(), self.rotation(), x as int, y as int) && read_pixel(self.fb(), self.size(), self.rotation(), x as int, y as int)),
    {
        self.buffer.get_pixel(self.properties.get_size(), self.properties.get_rotation(), x, y)
    }

    /// Initialises the display in horizontal addressing mode.
    pub fn init(&mut self) -> (r: Result<(), Error<DI::Error>>)
        requires
            old(self).wf(),
        ensures
            final(self).wf(),
            final(self).fb() == old(self).fb(),
            final(self).region() == old(self).region(),
            final(self).size() == old(self).size(),
            final(self).rotation() == old(self).rotation(),
            final(self).mode() == (if r is Ok { AddrMode::Horizontal } else { old(self).mode() }),
            outcome(
                old(self).bus(),
                final(self).bus(),
                as_commands(init_bytes(old(self).size(), old(self).rotation(), AddrMode::Horizontal)),
                r,
                old(self).props().iface().refused(),
                final(self).props().iface().refused(),
            ),
    {
        self.properties.init_column_mode()
    }

    /// Logical `(width, height)`: the panel's, swapped at 90 and 270 degrees.
    pub fn get_dimensions(&self) -> (r: (u8, u8))
        ensures
            r.0 == logical_dims(self.size(), self.rotation()).0,
            r.1 == logical_dims(self.size(), self.rotation()).1,
    {
        self.properties.get_dimensions()
    }

    /// Sets the display rotation and sends the commands that realise it.
    pub fn set_rotation(&mut self, rot: DisplayRotation) -> (r: Result<(), Error<DI::Error>>)
        requires
            old(self).wf(),
        ensures
            final(self).wf(),
            final(self).fb() == old(self).fb(),
            final(self).region() == old(self).region(),
            final(self).size() == old(self).size(),
            final(self).mode() == old(self).mode(),
            final(self).rotation() == rot,
            outcome(old(self).bus(), final(self).bus(), as_commands(rotation_bytes(rot)), r, old(self).props().iface().refused(), final(self).props().iface().refused()),
    {
        self.properties.set_rotation(rot)
    }

    /// Switches the display on or off. Display memory is kept while it is off.
    pub fn display_on(&mut self, on: bool) -> (r: Result<(), Error<DI::Error>>)
        requires
            old(self).wf(),
        ensures
            final(self).wf(),
            final(self).fb() == old(self).fb(),
            final(self).region() == old(self).region(),
            final(self).props().same_state(&old(self).props()),
            outcome(old(self).bus(), final(self).bus(), as_commands(command_bytes(Command::DisplayOn(on))), r, old(self).props().iface().refused(), final(self).props().iface().refused()),
    {
        self.properties.display_on(on)
    }

    /// The dirty region.
    pub fn dirty_region(&self) -> (r: &DirtyRegion)
        ensures
            r@ == self.region(),
    {
        &self.dirty
    }

    /// The framebuffer.
    pub fn framebuffer(&self) -> (r: &FrameBuffer)
        ensures
            r@ == self.fb(),
    {
        &self.buffer
    }
}

} // verus!
