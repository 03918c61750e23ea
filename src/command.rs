//! The controller's command set and its byte encoding.
use vstd::prelude::*;
use crate::geometry::AddrMode;

verus! {

/// Level of the VCOMH deselect voltage.
#[derive(Clone, Copy, Debug, PartialEq, Eq, Structural)]
pub enum VcomhLevel {
    V065,
    V077,
    V083,
    Auto,
}

impl VcomhLevel {
    /// The register value of this level.
    pub open spec fn code(self) -> u8 {
        match self {
            VcomhLevel::V065 => 1u8,
            VcomhLevel::V077 => 2u8,
            VcomhLevel::V083 => 3u8,
            VcomhLevel::Auto => 4u8,
        }
    }
}

/// One controller command with its parameters.
#[derive(Clone, Copy, Debug, PartialEq, Eq, Structural)]
pub enum Command {
    /// Contrast, higher is brighter.
    Contrast(u8),
    /// Force every pixel on (true) or follow display memory (false).
    AllOn(bool),
    /// Invert the image.
    Invert(bool),
    /// Switch the panel on or off.
    DisplayOn(bool),
    /// First and last column of the draw window.
    ColumnAddress(u8, u8),
    /// First and last page of the draw window.
    PageAddress(u8, u8),
    /// Page of the next write in page addressing mode.
    PageStart(u8),
    /// Display start line.
    StartLine(u8),
    /// Map column 127 to segment 0 (true) or column 0 (false).
    SegmentRemap(bool),
    /// Multiplex ratio (number of rows minus one).
    Multiplex(u8),
    /// Scan COM outputs in reverse order.
    ReverseComDir(bool),
    /// Vertical display offset.
    DisplayOffset(u8),
    /// COM pins hardware configuration: alternative pins, left/right remap.
    ComPinConfig(bool, bool),
    /// Oscillator frequency and clock divide ratio.
    DisplayClockDiv(u8, u8),
    /// Pre-charge periods of phase one and phase two.
    PreChargePeriod(u8, u8),
    /// VCOMH deselect level.
    VcomhDeselect(VcomhLevel),
    /// Internal charge pump.
    ChargePump(bool),
    /// Memory addressing mode.
    AddressMode(AddrMode),
    /// Column of the next write in page addressing mode.
    ColStart(u8),
    /// Enable or disable scrolling.
    EnableScroll(bool),
}

/// `set` when `b` holds, else `clear`.
pub open spec fn flag(b: bool, set: u8, clear: u8) -> u8 {
    if b { set } else { clear }
}

/// The bytes that transmit a command.
pub open spec fn command_bytes(c: Command) -> Seq<u8> {
    match c {
        Command::Contrast(v) => seq![0x81u8, v],
        Command::AllOn(on) => seq![flag(on, 0xa5, 0xa4)],
        Command::Invert(inv) => seq![flag(inv, 0xa7, 0xa6)],
        Command::DisplayOn(on) => seq![flag(on, 0xaf, 0xae)],
        Command::ColumnAddress(start, end) => seq![0x21u8, start, end],
        Command::PageAddress(start, end) => seq![0x22u8, start, end],
        Command::PageStart(page) => seq![0xb0u8 | (page & 0x07u8)],
        Command::StartLine(line) => seq![0x40u8 | (line & 0x3fu8)],
        Command::SegmentRemap(remap) => seq![flag(remap, 0xa1, 0xa0)],
        Command::Multiplex(ratio) => seq![0xa8u8, ratio],
        Command::ReverseComDir(rev) => seq![flag(rev, 0xc8, 0xc0)],
        Command::DisplayOffset(off) => seq![0xd3u8, off],
        Command::ComPinConfig(alt, lr) => seq![
            0xdau8,
            0x02u8 | flag(alt, 0x10, 0x00) | flag(lr, 0x20, 0x00),
        ],
        Command::DisplayClockDiv(fosc, div) => seq![
            0xd5u8,
            (((fosc & 0x0fu8) as u8) << 4u8) | (div & 0x0fu8),
        ],
        Command::PreChargePeriod(phase1, phase2) => seq![
            0xd9u8,
            (((phase2 & 0x0fu8) as u8) << 4u8) | (phase1 & 0x0fu8),
        ],
        Command::VcomhDeselect(level) => seq![0xdbu8, (level.code() << 4u8) as u8],
        Command::ChargePump(en) => seq![0x8du8, flag(en, 0x14, 0x10)],
        Command::AddressMode(mode) => seq![0x20u8, mode.code()],
        Command::ColStart(col) => seq![col & 0x0fu8, 0x10u8 | ((col >> 4u8) & 0x0fu8)],
        Command::EnableScroll(en) => seq![flag(en, 0x2f, 0x2e)],
    }
}

impl Command {
    /// Appends the bytes of this command to `out`.
    pub fn append_to(&self, out: &mut Vec<u8>)
        ensures
            final(out)@ == old(out)@ + command_bytes(*self),
    {
        let ghost start = out@;
        match *self {
            Command::Contrast(v) => {
                out.push(0x81);
                out.push(v);
            },
            Command::AllOn(on) => {
                out.push(if on { 0xa5 } else { 0xa4 });
            },
            Command::Invert(inv) => {
                out.push(if inv { 0xa7 } else { 0xa6 });
            },
            Command::DisplayOn(on) => {
                out.push(if on { 0xaf } else { 0xae });
            },
            Command::ColumnAddress(start, end) => {
                out.push(0x21);
                out.push(start);
                out.push(end);
            },
            Command::PageAddress(start, end) => {
                out.push(0x22);
                out.push(start);
                out.push(end);
            },
            Command::PageStart(page) => {
                out.push(0xb0u8 | (page & 0x07u8));
            },
            Command::StartLine(line) => {
                out.push(0x40u8 | (line & 0x3fu8));
            },
            Command::SegmentRemap(remap) => {
                out.push(if remap { 0xa1 } else { 0xa0 });
            },
            Command::Multiplex(ratio) => {
                out.push(0xa8);
                out.push(ratio);
            },
            Command::ReverseComDir(rev) => {
                out.push(if rev { 0xc8 } else { 0xc0 });
            },
            Command::DisplayOffset(off) => {
                out.push(0xd3);
                out.push(off);
            },
            Command::ComPinConfig(alt, lr) => {
                let a: u8 = if alt { 0x10 } else { 0x00 };
                let l: u8 = if lr { 0x20 } else { 0x00 };
                out.push(0xda);
                out.push(0x02u8 | a | l);
            },
            Command::DisplayClockDiv(fosc, div) => {
                out.push(0xd5);
                out.push(((fosc & 0x0fu8) << 4u8) | (div & 0x0fu8));
            },
            Command::PreChargePeriod(phase1, phase2) => {
                out.push(0xd9);
                out.push(((phase2 & 0x0fu8) << 4u8) | (phase1 & 0x0fu8));
            },
            Command::VcomhDeselect(level) => {
                let code: u8 = match level {
                    VcomhLevel::V065 => 1,
                    VcomhLevel::V077 => 2,
                    VcomhLevel::V083 => 3,
                    VcomhLevel::Auto => 4,
                };
                out.push(0xdb);
                out.push(code << 4u8);
            },
            Command::ChargePump(en) => {
                out.push(0x8d);
                out.push(if en { 0x14 } else { 0x10 });
            },
            Command::AddressMode(mode) => {
                let code: u8 = match mode {
                    AddrMode::Horizontal => 0,
                    AddrMode::Vertical => 1,
                    AddrMode::Page => 2,
                };
                out.push(0x20);
                out.push(code);
            },
            Command::ColStart(col) => {
                out.push(col & 0x0fu8);
                out.push(0x10u8 | ((col >> 4u8) & 0x0fu8));
            },
            Command::EnableScroll(en) => {
                out.push(if en { 0x2f } else { 0x2e });
            },
        }
        assert(out@ =~= start + command_bytes(*self));
    }
}

} // verus!
