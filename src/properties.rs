//! Display state shared by every drawing mode: geometry, rotation and the
//! controller's addressing-mode state machine, and the command sequences that
//! configure the controller.
use vstd::prelude::*;
use vstd::slice::slice_subrange;
use crate::command::{command_bytes, Command, VcomhLevel};
use crate::geometry::{AddrMode, Brightness, DisplayRotation, DisplaySize, logical_dims};
use crate::interface::{
    as_commands, lemma_failed_prefix, lemma_nothing_sent, lemma_transmitted_then, transmitted, BusOp,
    DisplayInterface,
};

verus! {

/// Why a display operation failed.
#[derive(Clone, Copy, Debug, PartialEq, Eq)]
pub enum Error<E> {
    /// The channel refused a transfer; its error is passed on as it came.
    Transport(E),
    /// A positioning command is not legal in the current addressing mode.
    InvalidMode,
    /// A window, column, row or brightness value lies outside what the panel accepts.
    OutOfRange,
}

/// The bus history went from `before` to `after` by sending `ops`: all of them on
/// success; on failure a strict prefix, the channel refused the next one of `ops`, and
/// the error is the one it gave for that refusal. `refused_before` and `refused_after`
/// are the channel's histories of refusals.
pub open spec fn outcome<T, E>(
    before: Seq<BusOp>,
    after: Seq<BusOp>,
    ops: Seq<BusOp>,
    r: Result<T, Error<E>>,
    refused_before: Seq<(BusOp, E)>,
    refused_after: Seq<(BusOp, E)>,
) -> bool {
    &&& transmitted(before, after, ops, r is Ok)
    &&& (r is Ok ==> refused_after == refused_before)
    &&& (r is Err ==> {
        &&& refused_after.len() == refused_before.len() + 1
        &&& refused_after == refused_before.push((ops[after.len() - before.len()], refused_after.last().1))
        &&& r->Err_0 == Error::<E>::Transport(refused_after.last().1)
    })
}

/// A successful operation followed by another one is one operation over the joined
/// transfers.
pub proof fn lemma_outcome_then<T, U, E>(
    b0: Seq<BusOp>,
    b1: Seq<BusOp>,
    b2: Seq<BusOp>,
    ops1: Seq<BusOp>,
    ops2: Seq<BusOp>,
    r1: Result<T, Error<E>>,
    r: Result<U, Error<E>>,
    f0: Seq<(BusOp, E)>,
    f1: Seq<(BusOp, E)>,
    f2: Seq<(BusOp, E)>,
)
    requires
        r1 is Ok,
        outcome(b0, b1, ops1, r1, f0, f1),
        outcome(b1, b2, ops2, r, f1, f2),
    ensures
        outcome(b0, b2, ops1 + ops2, r, f0, f2),
{
    lemma_transmitted_then(b0, b1, b2, ops1, ops2, r is Ok);
    if r is Err {
        assert(b1.len() == b0.len() + ops1.len());
        assert((ops1 + ops2)[b2.len() - b0.len()] == ops2[b2.len() - b1.len()]);
    }
}

/// A failed operation is a failed prefix of any longer operation.
pub proof fn lemma_outcome_failed<T, U, E>(
    b0: Seq<BusOp>,
    b1: Seq<BusOp>,
    ops1: Seq<BusOp>,
    ops2: Seq<BusOp>,
    r: Result<T, Error<E>>,
    r2: Result<U, Error<E>>,
    f0: Seq<(BusOp, E)>,
    f1: Seq<(BusOp, E)>,
)
    requires
        r is Err,
        r2 is Err,
        r2->Err_0 == r->Err_0,
        outcome(b0, b1, ops1, r, f0, f1),
    ensures
        outcome(b0, b1, ops1 + ops2, r2, f0, f1),
{
    lemma_failed_prefix(b0, b1, ops1, ops2);
    assert((ops1 + ops2)[b1.len() - b0.len()] == ops1[b1.len() - b0.len()]);
}

/// The commands that realise a rotation: segment remap, then COM output direction.
pub open spec fn rotation_bytes(rotation: DisplayRotation) -> Seq<u8> {
    command_bytes(Command::SegmentRemap(rotation.segment_remap()))
        + command_bytes(Command::ReverseComDir(rotation.reverse_com_dir()))
}

/// The commands that set a brightness: pre-charge period, then contrast.
pub open spec fn brightness_bytes(b: Brightness) -> Seq<u8> {
    command_bytes(Command::PreChargePeriod(1, b.precharge)) + command_bytes(Command::Contrast(b.contrast))
}

/// A valid pre-charge period.
pub open spec fn precharge_valid(b: Brightness) -> bool {
    1 <= b.precharge <= 15
}

/// The start of the cold initialisation sequence: the display is switched off, then
/// clock, multiplex ratio, offsets, charge pump and addressing mode are set.
pub open spec fn init_head(size: DisplaySize, mode: AddrMode) -> Seq<u8> {
    command_bytes(Command::DisplayOn(false))
        + command_bytes(Command::DisplayClockDiv(0x8, 0x0))
        + command_bytes(Command::Multiplex((size.height() - 1) as u8))
        + command_bytes(Command::DisplayOffset(0))
        + command_bytes(Command::StartLine(0))
        + command_bytes(Command::ChargePump(true))
        + command_bytes(Command::AddressMode(mode))
}

/// The panel-specific configuration: the COM pins layout.
pub open spec fn size_bytes(size: DisplaySize) -> Seq<u8> {
    command_bytes(Command::ComPinConfig(size.com_pins().0, size.com_pins().1))
}

/// The end of the cold initialisation sequence: default brightness, VCOMH level, normal
/// display without scrolling, and the display switched on last.
pub open spec fn init_tail() -> Seq<u8> {
    brightness_bytes(Brightness { precharge: 2, contrast: 0x5f })
        + command_bytes(Command::VcomhDeselect(VcomhLevel::Auto))
        + command_bytes(Command::AllOn(false))
        + command_bytes(Command::Invert(false))
        + command_bytes(Command::EnableScroll(false))
        + command_bytes(Command::DisplayOn(true))
}

/// The cold initialisation sequence with the rotation before the panel configuration.
pub open spec fn init_bytes(size: DisplaySize, rotation: DisplayRotation, mode: AddrMode) -> Seq<u8> {
    init_head(size, mode) + rotation_bytes(rotation) + size_bytes(size) + init_tail()
}

/// The cold initialisation sequence with the panel configuration before the rotation.
pub open spec fn addr_mode_init_bytes(size: DisplaySize, rotation: DisplayRotation, mode: AddrMode) -> Seq<u8> {
    init_head(size, mode) + size_bytes(size) + rotation_bytes(rotation) + init_tail()
}

/// A draw window from `start` (inclusive) to `end` (exclusive), as `(column, row)` pixel
/// coordinates of the panel, that is not empty and lies inside the panel.
pub open spec fn window_valid(size: DisplaySize, start: (u8, u8), end: (u8, u8)) -> bool {
    &&& start.0 < end.0 <= size.width()
    &&& start.1 < end.1 <= size.height()
}

/// The commands that program a draw window: the column range, then the range of pages
/// that hold the rows.
pub open spec fn window_bytes(start: (u8, u8), end: (u8, u8)) -> Seq<u8> {
    command_bytes(Command::ColumnAddress(start.0, (end.0 - 1) as u8))
        + command_bytes(Command::PageAddress((start.1 / 8) as u8, ((end.1 - 1) / 8) as u8))
}

/// The data transfers of a bounded draw: for each of `count` pages from `first_page`
/// on, the bytes of columns `col_start` up to `col_end` (exclusive) of that page's row
/// of `buffer`, which holds `width` bytes per page.
pub open spec fn band_ops(buffer: Seq<u8>, width: int, col_start: int, col_end: int, first_page: int, count: int) -> Seq<BusOp> {
    Seq::new(
        count as nat,
        |k: int| BusOp::Data(buffer.subrange((first_page + k) * width + col_start, (first_page + k) * width + col_end)),
    )
}

/// How many pages a bounded draw sends for rows `top` to `bottom` from a buffer of `len`
/// bytes and `width` bytes per page: `(bottom - top) / 8 + 1` pages from the one that
/// holds row `top`, but none past the buffer's last whole page.
pub open spec fn drawn_pages(len: int, width: int, top: int, bottom: int) -> int {
    let first = top / 8;
    let wanted = (bottom - top) / 8 + 1;
    let present = len / width;
    if first + wanted <= present {
        wanted
    } else if present > first {
        present - first
    } else {
        0
    }
}

/// Display properties: the channel, the panel's geometry and rotation, and the
/// controller's addressing mode as last set.
pub struct DisplayProperties<DI> {
    iface: DI,
    display_size: DisplaySize,
    display_rotation: DisplayRotation,
    addr_mode: AddrMode,
}

/// The driver: display properties on a channel, before a drawing mode is chosen.
pub type Ssd1306<DI> = DisplayProperties<DI>;

impl<DI: DisplayInterface> DisplayProperties<DI> {
    /// The panel size.
    pub closed spec fn size(&self) -> DisplaySize {
        self.display_size
    }

    /// The display rotation.
    pub closed spec fn spec_rotation(&self) -> DisplayRotation {
        self.display_rotation
    }

    /// The addressing mode as last set.
    pub closed spec fn mode(&self) -> AddrMode {
        self.addr_mode
    }

    /// The channel.
    pub closed spec fn iface(&self) -> DI {
        self.iface
    }

    /// What the channel has accepted, oldest first.
    pub open spec fn bus(&self) -> Seq<BusOp> {
        self.iface().sent()
    }

    /// Size, rotation and addressing mode are those of `other`.
    pub open spec fn same_state(&self, other: &Self) -> bool {
        &&& self.size() == other.size()
        &&& self.rotation() == other.rotation()
        &&& self.mode() == other.mode()
    }

    /// Properties for a panel of the given size and rotation. The controller starts in
    /// page addressing mode, its reset state.
    pub fn new(iface: DI, display_size: DisplaySize, display_rotation: DisplayRotation) -> (r: Self)
        ensures
            r.size() == display_size,
            r.rotation() == display_rotation,
            r.mode() == AddrMode::Page,
            r.iface() == iface,
            r.bus() == iface.sent(),
    {
        DisplayProperties {
            iface,
            display_size,
            display_rotation,
            addr_mode: AddrMode::Page,
        }
    }

    /// The channel.
    pub fn interface(&self) -> (r: &DI)
        ensures
            *r == self.iface(),
    {
        &self.iface
    }

    /// Hands the channel back.
    pub fn release(self) -> (r: DI)
        ensures
            r == self.iface(),
    {
        self.iface
    }

    /// Sends control bytes one after the other, stopping at the first failure, and
    /// leaves the state as it is.
    fn send(&mut self, bytes: &Vec<u8>) -> (r: Result<(), Error<DI::Error>>)
        ensures
            final(self).same_state(old(self)),
            outcome(old(self).bus(), final(self).bus(), as_commands(bytes@), r, old(self).iface().refused(), final(self).iface().refused()),
    {
        let ghost before = self.bus();
        let ghost refused = self.iface().refused();
        let ghost ops = as_commands(bytes@);
        let mut i: usize = 0;
        let mut result: Result<(), Error<DI::Error>> = Ok(());
        while i < bytes.len()
            invariant_except_break
                result is Ok,
                self.iface().refused() == refused,
            invariant
                i <= bytes.len(),
                ops == as_commands(bytes@),
                ops.len() == bytes@.len(),
                self.bus() == before + ops.take(i as int),
                self.same_state(old(self)),
            ensures
                i <= bytes.len(),
                self.bus() == before + ops.take(i as int),
                self.same_state(old(self)),
                result is Ok <==> i == bytes.len(),
                result is Ok ==> self.iface().refused() == refused,
                result is Err ==> i < ops.len() && self.iface().refused() == refused.push(
                    (ops[i as int], self.iface().refused().last().1),
                ) && result->Err_0 == Error::<DI::Error>::Transport(self.iface().refused().last().1),
            decreases bytes.len() - i,
        {
            match self.iface.send_command(bytes[i]) {
                Ok(()) => {
                    assert(ops.take(i as int).push(BusOp::Command(bytes@[i as int])) =~= ops.take(i + 1));
                    assert(before + ops.take(i + 1) =~= (before + ops.take(i as int)).push(
                        BusOp::Command(bytes@[i as int]),
                    ));
                    i = i + 1;
                },
                Err(e) => {
                    result = Err(Error::Transport(e));
                    break;
                },
            }
        }
        assert(ops.take(bytes.len() as int) =~= ops);
        assert(ops.take(i as int).len() == i);
        result
    }

    /// Initialises the display in horizontal addressing mode: a byte walks down a column
    /// of 8 pixels, and columns run from left to right.
    pub fn init_column_mode(&mut self) -> (r: Result<(), Error<DI::Error>>)
        ensures
            final(self).size() == old(self).size(),
            final(self).rotation() == old(self).rotation(),
            final(self).mode() == (if r is Ok { AddrMode::Horizontal } else { old(self).mode() }),
            outcome(
                old(self).bus(),
                final(self).bus(),
                as_commands(init_bytes(old(self).size(), old(self).rotation(), AddrMode::Horizontal)),
                r,
                old(self).iface().refused(),
                final(self).iface().refused(),
            ),
    {
        self.init_with_mode(AddrMode::Horizontal)
    }

    /// The initialisation commands, with the panel configuration before the rotation
    /// when `size_first` holds and after it otherwise.
    fn init_commands(&self, mode: AddrMode, size_first: bool) -> (r: Vec<u8>)
        ensures
            r@ == (if size_first {
                addr_mode_init_bytes(self.size(), self.rotation(), mode)
            } else {
                init_bytes(self.size(), self.rotation(), mode)
            }),
    {
        proof {
            self.display_size.lemma_bounds();
        }
        let (_, display_height) = self.display_size.dimensions();
        let (com_alt, com_lr) = self.display_size.com_pin_flags();
        let rotation = self.display_rotation;
        let brightness = Brightness::normal();
        let mut bytes: Vec<u8> = Vec::new();
        Command::DisplayOn(false).append_to(&mut bytes);
        Command::DisplayClockDiv(0x8, 0x0).append_to(&mut bytes);
        Command::Multiplex(display_height - 1).append_to(&mut bytes);
        Command::DisplayOffset(0).append_to(&mut bytes);
        Command::StartLine(0).append_to(&mut bytes);
        Command::ChargePump(true).append_to(&mut bytes);
        Command::AddressMode(mode).append_to(&mut bytes);
        let ghost head = bytes@;
        assert(head =~= init_head(self.display_size, mode));
        if size_first {
            Command::ComPinConfig(com_alt, com_lr).append_to(&mut bytes);
            rotation_commands(rotation, &mut bytes);
        } else {
            rotation_commands(rotation, &mut bytes);
            Command::ComPinConfig(com_alt, com_lr).append_to(&mut bytes);
        }
        let ghost middle = bytes@;
        Command::PreChargePeriod(1, brightness.precharge).append_to(&mut bytes);
        Command::Contrast(brightness.contrast).append_to(&mut bytes);
        Command::VcomhDeselect(VcomhLevel::Auto).append_to(&mut bytes);
        Command::AllOn(false).append_to(&mut bytes);
        Command::Invert(false).append_to(&mut bytes);
        Command::EnableScroll(false).append_to(&mut bytes);
        Command::DisplayOn(true).append_to(&mut bytes);
        assert(bytes@ =~= middle + init_tail());
        if size_first {
            assert(bytes@ =~= addr_mode_init_bytes(self.display_size, rotation, mode));
        } else {
            assert(bytes@ =~= init_bytes(self.display_size, rotation, mode));
        }
        bytes
    }

    /// Initialises the display in the given addressing mode. The local mode changes only
    /// once the whole sequence has been accepted.
    pub fn init_with_mode(&mut self, mode: AddrMode) -> (r: Result<(), Error<DI::Error>>)
        ensures
            final(self).size() == old(self).size(),
            final(self).rotation() == old(self).rotation(),
            final(self).mode() == (if r is Ok { mode } else { old(self).mode() }),
            outcome(
                old(self).bus(),
                final(self).bus(),
                as_commands(init_bytes(old(self).size(), old(self).rotation(), mode)),
                r,
                old(self).iface().refused(),
                final(self).iface().refused(),
            ),
    {
        let bytes = self.init_commands(mode, false);
        let r = self.send(&bytes);
        if r.is_ok() {
            self.addr_mode = mode;
        }
        r
    }

    /// Initialises the display in the given addressing mode, configuring the panel
    /// before the rotation. The local mode changes only once the whole sequence has been
    /// accepted.
    pub fn init_with_addr_mode(&mut self, mode: AddrMode) -> (r: Result<(), Error<DI::Error>>)
        ensures
            final(self).size() == old(self).size(),
            final(self).rotation() == old(self).rotation(),
            final(self).mode() == (if r is Ok { mode } else { old(self).mode() }),
            outcome(
                old(self).bus(),
                final(self).bus(),
                as_commands(addr_mode_init_bytes(old(self).size(), old(self).rotation(), mode)),
                r,
                old(self).iface().refused(),
                final(self).iface().refused(),
            ),
    {
        let bytes = self.init_commands(mode, true);
        let r = self.send(&bytes);
        if r.is_ok() {
            self.addr_mode = mode;
        }
        r
    }

    /// Changes the addressing mode. The mode command is sent first; the local mode
    /// follows only when it was accepted, so both sides agree after a failure.
    pub fn change_mode(&mut self, mode: AddrMode) -> (r: Result<(), Error<DI::Error>>)
        ensures
            final(self).size() == old(self).size(),
            final(self).rotation() == old(self).rotation(),
            final(self).mode() == (if r is Ok { mode } else { old(self).mode() }),
            outcome(old(self).bus(), final(self).bus(), as_commands(command_bytes(Command::AddressMode(mode))), r, old(self).iface().refused(), final(self).iface().refused()),
    {
        let mut bytes: Vec<u8> = Vec::new();
        Command::AddressMode(mode).append_to(&mut bytes);
        let r = self.send(&bytes);
        if r.is_ok() {
            self.addr_mode = mode;
        }
        r
    }

    /// Sets the draw window, from `start` (inclusive) to `end` (exclusive) in `(column, row)`
    /// pixels of the panel. Only legal in horizontal or vertical addressing mode; a window
    /// that is empty or leaves the panel is refused before anything is sent.
    pub fn set_draw_area(&mut self, start: (u8, u8), end: (u8, u8)) -> (r: Result<(), Error<DI::Error>>)
        ensures
            final(self).same_state(old(self)),
            old(self).mode() == AddrMode::Page ==> r is Err && r->Err_0 is InvalidMode && *final(self) == *old(self),
            old(self).mode() != AddrMode::Page && !window_valid(old(self).size(), start, end) ==> r is Err
                && r->Err_0 is OutOfRange && *final(self) == *old(self),
            old(self).mode() != AddrMode::Page && window_valid(old(self).size(), start, end) ==> outcome(
                old(self).bus(),
                final(self).bus(),
                as_commands(window_bytes(start, end)),
                r,
                old(self).iface().refused(),
                final(self).iface().refused(),
            ),
    {
        match self.addr_mode {
            AddrMode::Page => Err(Error::InvalidMode),
            _ => {
                proof {
                    self.display_size.lemma_bounds();
                }
                let (width, height) = self.display_size.dimensions();
                if !(start.0 < end.0 && end.0 <= width && start.1 < end.1 && end.1 <= height) {
                    return Err(Error::OutOfRange);
                }
                let mut bytes: Vec<u8> = Vec::new();
                Command::ColumnAddress(start.0, end.0 - 1).append_to(&mut bytes);
                Command::PageAddress(start.1 / 8, (end.1 - 1) / 8).append_to(&mut bytes);
                assert(bytes@ =~= window_bytes(start, end));
                self.send(&bytes)
            },
        }
    }

    /// Sets the column of the next write. Only legal in page addressing mode.
    pub fn set_column(&mut self, column: u8) -> (r: Result<(), Error<DI::Error>>)
        ensures
            final(self).same_state(old(self)),
            old(self).mode() != AddrMode::Page ==> r is Err && r->Err_0 is InvalidMode && *final(self) == *old(self),
            old(self).mode() == AddrMode::Page ==> outcome(
                old(self).bus(),
                final(self).bus(),
                as_commands(command_bytes(Command::ColStart(column))),
                r,
                old(self).iface().refused(),
                final(self).iface().refused(),
            ),
    {
        match self.addr_mode {
            AddrMode::Page => {
                let mut bytes: Vec<u8> = Vec::new();
                Command::ColStart(column).append_to(&mut bytes);
                self.send(&bytes)
            },
            _ => Err(Error::InvalidMode),
        }
    }

    /// Sets the page of the next write to the page that holds pixel row `row`. Only legal
    /// in page addressing mode.
    pub fn set_row(&mut self, row: u8) -> (r: Result<(), Error<DI::Error>>)
        ensures
            final(self).same_state(old(self)),
            old(self).mode() != AddrMode::Page ==> r is Err && r->Err_0 is InvalidMode && *final(self) == *old(self),
            old(self).mode() == AddrMode::Page ==> outcome(
                old(self).bus(),
                final(self).bus(),
                as_commands(command_bytes(Command::PageStart((row / 8) as u8))),
                r,
                old(self).iface().refused(),
                final(self).iface().refused(),
            ),
    {
        match self.addr_mode {
            AddrMode::Page => {
                let mut bytes: Vec<u8> = Vec::new();
                Command::PageStart(row / 8).append_to(&mut bytes);
                self.send(&bytes)
            },
            _ => Err(Error::InvalidMode),
        }
    }

    /// Sends a data payload to be written at the controller's current position.
    pub fn draw(&mut self, buffer: &[u8]) -> (r: Result<(), Error<DI::Error>>)
        ensures
            final(self).same_state(old(self)),
            outcome(old(self).bus(), final(self).bus(), seq![BusOp::Data(buffer@)], r, old(self).iface().refused(), final(self).iface().refused()),
    {
        let ghost before = self.bus();
        match self.iface.send_data(buffer) {
            Ok(()) => {
                assert(before.push(BusOp::Data(buffer@)) =~= before + seq![BusOp::Data(buffer@)].take(1));
                Ok(())
            },
            Err(e) => {
                proof {
                    lemma_nothing_sent(before, seq![BusOp::Data(buffer@)]);
                }
                Err(Error::Transport(e))
            },
        }
    }

    /// Sends the part of `buffer` inside a rectangle, one page at a time from the top:
    /// columns `upper_left.0` up to `lower_right.0` (exclusive) of
    /// `(lower_right.1 - upper_left.1) / 8 + 1` pages, starting with the one that holds
    /// row `upper_left.1`. `buffer` holds `disp_width` bytes per page; pages past its end
    /// are left out.
    pub fn bounded_draw(
        &mut self,
        buffer: &[u8],
        disp_width: usize,
        upper_left: (u8, u8),
        lower_right: (u8, u8),
    ) -> (r: Result<(), Error<DI::Error>>)
        requires
            0 < disp_width,
            upper_left.0 <= lower_right.0 <= disp_width,
            upper_left.1 <= lower_right.1,
            (buffer@.len() as int) % (disp_width as int) == 0
                || (upper_left.1 / 8 + (lower_right.1 - upper_left.1) / 8 + 1) * disp_width <= buffer@.len(),
        ensures
            final(self).same_state(old(self)),
            outcome(
                old(self).bus(),
                final(self).bus(),
                band_ops(
                    buffer@,
                    disp_width as int,
                    upper_left.0 as int,
                    lower_right.0 as int,
                    (upper_left.1 / 8) as int,
                    drawn_pages(buffer@.len() as int, disp_width as int, upper_left.1 as int, lower_right.1 as int),
                ),
                r,
                old(self).iface().refused(),
                final(self).iface().refused(),
            ),
    {
        let ghost before = self.bus();
        let ghost refused = self.iface().refused();
        let first_page: usize = (upper_left.1 / 8) as usize;
        let wanted: usize = ((lower_right.1 - upper_left.1) / 8) as usize + 1;
        let buffer_len: usize = buffer.len();
        let present: usize = buffer_len / disp_width;
        let end_page: usize = if first_page + wanted <= present {
            first_page + wanted
        } else if present > first_page {
            present
        } else {
            first_page
        };
        proof {
            vstd::arithmetic::div_mod::lemma_fundamental_div_mod(buffer_len as int, disp_width as int);
            vstd::arithmetic::div_mod::lemma_mod_pos_bound(buffer_len as int, disp_width as int);
            assert(present * disp_width <= buffer_len) by (nonlinear_arith)
                requires buffer_len == disp_width * present + buffer_len % disp_width, buffer_len % disp_width >= 0;
            assert(end_page == first_page || end_page * disp_width <= buffer_len) by (nonlinear_arith)
                requires end_page <= present || end_page == first_page, present * disp_width <= buffer_len;
        }
        let col_start: usize = upper_left.0 as usize;
        let col_end: usize = lower_right.0 as usize;
        let ghost ops = band_ops(
            buffer@,
            disp_width as int,
            col_start as int,
            col_end as int,
            first_page as int,
            end_page - first_page,
        );
        assert(end_page - first_page == drawn_pages(buffer@.len() as int, disp_width as int, upper_left.1 as int, lower_right.1 as int));
        let mut page: usize = first_page;
        let mut result: Result<(), Error<DI::Error>> = Ok(());
        while page < end_page
            invariant_except_break
                result is Ok,
                self.iface().refused() == refused,
            invariant
                first_page <= page,
                first_page <= end_page,
                page <= end_page,
                col_start <= col_end <= disp_width,
                end_page == first_page || end_page * disp_width <= buffer@.len(),
                buffer@.len() == buffer_len,
                ops == band_ops(buffer@, disp_width as int, col_start as int, col_end as int, first_page as int, end_page - first_page),
                self.bus() == before + ops.take(page - first_page),
                self.same_state(old(self)),
            ensures
                first_page <= page <= end_page,
                self.bus() == before + ops.take(page - first_page),
                self.same_state(old(self)),
                result is Ok <==> page == end_page,
                result is Ok ==> self.iface().refused() == refused,
                result is Err ==> page < end_page && self.iface().refused() == refused.push(
                    (ops[page - first_page], self.iface().refused().last().1),
                ) && result->Err_0 == Error::<DI::Error>::Transport(self.iface().refused().last().1),
            decreases end_page - page,
        {
            proof {
                assert(page * disp_width + col_end <= end_page * disp_width) by (nonlinear_arith)
                    requires page < end_page, col_end <= disp_width;
                assert(page * disp_width <= page * disp_width + col_end) by (nonlinear_arith);
            }
            let row_start: usize = page * disp_width;
            let band = slice_subrange(buffer, row_start + col_start, row_start + col_end);
            assert(ops[page - first_page] == BusOp::Data(band@));
            match self.iface.send_data(band) {
                Ok(()) => {
                    assert(ops.take(page - first_page).push(BusOp::Data(band@)) =~= ops.take(page + 1 - first_page));
                    assert(before + ops.take(page + 1 - first_page) =~= (before + ops.take(page - first_page)).push(BusOp::Data(band@)));
                    page = page + 1;
                },
                Err(e) => {
                    result = Err(Error::Transport(e));
                    break;
                },
            }
        }
        assert(ops.take(end_page - first_page) =~= ops);
        assert(ops.take(page - first_page).len() == page - first_page);
        result
    }

    /// The configured panel size.
    pub fn get_size(&self) -> (r: DisplaySize)
        ensures
            r == self.size(),
    {
        self.display_size
    }

    /// Logical `(width, height)`: the panel's, swapped at 90 and 270 degrees.
    pub fn get_dimensions(&self) -> (r: (u8, u8))
        ensures
            r.0 == logical_dims(self.size(), self.rotation()).0,
            r.1 == logical_dims(self.size(), self.rotation()).1,
    {
        let (w, h) = self.display_size.dimensions();
        match self.display_rotation {
            DisplayRotation::Rotate0 | DisplayRotation::Rotate180 => (w, h),
            DisplayRotation::Rotate90 | DisplayRotation::Rotate270 => (h, w),
        }
    }

    /// The display rotation.
    pub fn get_rotation(&self) -> (r: DisplayRotation)
        ensures
            r == self.rotation(),
    {
        self.display_rotation
    }

    /// The display rotation.
    #[verifier::when_used_as_spec(spec_rotation)]
    pub fn rotation(&self) -> (r: DisplayRotation)
        ensures
            r == self.spec_rotation(),
    {
        self.display_rotation
    }

    /// Logical `(width, height)`: the panel's, swapped at 90 and 270 degrees.
    pub fn dimensions(&self) -> (r: (u8, u8))
        ensures
            r.0 == logical_dims(self.size(), self.rotation()).0,
            r.1 == logical_dims(self.size(), self.rotation()).1,
    {
        self.get_dimensions()
    }

    /// Changes the addressing mode, as `change_mode` does.
    pub fn change_addr_mode(&mut self, mode: AddrMode) -> (r: Result<(), Error<DI::Error>>)
        ensures
            final(self).size() == old(self).size(),
            final(self).rotation() == old(self).rotation(),
            final(self).mode() == (if r is Ok { mode } else { old(self).mode() }),
            outcome(
                old(self).bus(),
                final(self).bus(),
                as_commands(command_bytes(Command::AddressMode(mode))),
                r,
                old(self).iface().refused(),
                final(self).iface().refused(),
            ),
    {
        self.change_mode(mode)
    }

    /// Sends the pre-charge period and contrast, as `change_brightness` does.
    pub fn set_brightness(&mut self, brightness: Brightness) -> (r: Result<(), Error<DI::Error>>)
        ensures
            final(self).same_state(old(self)),
            !precharge_valid(brightness) ==> r is Err && r->Err_0 is OutOfRange && *final(self) == *old(self),
            precharge_valid(brightness) ==> outcome(
                old(self).bus(),
                final(self).bus(),
                as_commands(brightness_bytes(brightness)),
                r,
                old(self).iface().refused(),
                final(self).iface().refused(),
            ),
    {
        self.change_brightness(brightness)
    }

    /// Sets the rotation and sends the segment remap and COM direction commands that
    /// realise it.
    pub fn set_rotation(&mut self, display_rotation: DisplayRotation) -> (r: Result<(), Error<DI::Error>>)
        ensures
            final(self).size() == old(self).size(),
            final(self).mode() == old(self).mode(),
            final(self).rotation() == display_rotation,
            outcome(old(self).bus(), final(self).bus(), as_commands(rotation_bytes(display_rotation)), r, old(self).iface().refused(), final(self).iface().refused()),
    {
        self.display_rotation = display_rotation;
        let mut bytes: Vec<u8> = Vec::new();
        rotation_commands(display_rotation, &mut bytes);
        assert(bytes@ =~= rotation_bytes(display_rotation));
        self.send(&bytes)
    }

    /// Switches the display on or off. Display memory is kept while it is off.
    pub fn display_on(&mut self, on: bool) -> (r: Result<(), Error<DI::Error>>)
        ensures
            final(self).same_state(old(self)),
            outcome(old(self).bus(), final(self).bus(), as_commands(command_bytes(Command::DisplayOn(on))), r, old(self).iface().refused(), final(self).iface().refused()),
    {
        let mut bytes: Vec<u8> = Vec::new();
        Command::DisplayOn(on).append_to(&mut bytes);
        self.send(&bytes)
    }

    /// Sends the pre-charge period and the contrast of `brightness`. A pre-charge period
    /// outside 1 to 15 is refused before anything is sent.
    pub fn change_brightness(&mut self, brightness: Brightness) -> (r: Result<(), Error<DI::Error>>)
        ensures
            final(self).same_state(old(self)),
            !precharge_valid(brightness) ==> r is Err && r->Err_0 is OutOfRange && *final(self) == *old(self),
            precharge_valid(brightness) ==> outcome(old(self).bus(), final(self).bus(), as_commands(brightness_bytes(brightness)), r, old(self).iface().refused(), final(self).iface().refused()),
    {
        if brightness.precharge == 0 || brightness.precharge > 15 {
            return Err(Error::OutOfRange);
        }
        let mut bytes: Vec<u8> = Vec::new();
        Command::PreChargePeriod(1, brightness.precharge).append_to(&mut bytes);
        Command::Contrast(brightness.contrast).append_to(&mut bytes);
        assert(bytes@ =~= brightness_bytes(brightness));
        self.send(&bytes)
    }
}

/// Appends the segment remap and COM direction commands for a rotation.
fn rotation_commands(rotation: DisplayRotation, out: &mut Vec<u8>)
    ensures
        final(out)@ == old(out)@ + rotation_bytes(rotation),
{
    let ghost start = out@;
    let (remap, reverse) = match rotation {
        DisplayRotation::Rotate0 => (true, true),
        DisplayRotation::Rotate90 => (false, true),
        DisplayRotation::Rotate180 => (false, false),
        DisplayRotation::Rotate270 => (true, false),
    };
    Command::SegmentRemap(remap).append_to(out);
    Command::ReverseComDir(reverse).append_to(out);
    assert(out@ =~= start + rotation_bytes(rotation));
}

} // verus!
