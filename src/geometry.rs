//! Panel geometry, rotation, addressing modes and brightness settings.
use vstd::prelude::*;

verus! {

/// The panel sizes the driver supports. Each height is a whole number of pages.
#[derive(Clone, Copy, Debug, PartialEq, Eq, Structural)]
pub enum DisplaySize {
    Display128x64,
    Display128x32,
    Display96x16,
    Display72x40,
    Display64x48,
}

impl DisplaySize {
    /// Physical width in pixels (columns).
    pub open spec fn width(self) -> nat {
        match self {
            DisplaySize::Display128x64 => 128,
            DisplaySize::Display128x32 => 128,
            DisplaySize::Display96x16 => 96,
            DisplaySize::Display72x40 => 72,
            DisplaySize::Display64x48 => 64,
        }
    }

    /// Physical height in pixels (rows).
    pub open spec fn height(self) -> nat {
        match self {
            DisplaySize::Display128x64 => 64,
            DisplaySize::Display128x32 => 32,
            DisplaySize::Display96x16 => 16,
            DisplaySize::Display72x40 => 40,
            DisplaySize::Display64x48 => 48,
        }
    }

    /// Number of 8-pixel pages.
    pub open spec fn pages(self) -> nat {
        self.height() / 8
    }

    /// Number of framebuffer bytes that are meaningful for this panel.
    pub open spec fn active_len(self) -> nat {
        self.width() * self.pages()
    }

    /// Column and row offset of the panel inside the controller's memory.
    pub open spec fn offset(self) -> (u8, u8) {
        match self {
            DisplaySize::Display72x40 => (28u8, 0u8),
            DisplaySize::Display64x48 => (32u8, 0u8),
            _ => (0u8, 0u8),
        }
    }

    /// The two flags of the COM pins hardware configuration command.
    pub open spec fn com_pins(self) -> (bool, bool) {
        match self {
            DisplaySize::Display128x32 => (false, false),
            DisplaySize::Display96x16 => (false, false),
            _ => (true, false),
        }
    }

    /// Facts about every supported geometry.
    pub proof fn lemma_bounds(self)
        ensures
            0 < self.width() <= 128,
            8 <= self.height() <= 64,
            self.height() % 8 == 0,
            self.pages() * 8 == self.height(),
            1 <= self.pages() <= 8,
            self.active_len() <= 1024,
            self.offset().0 + self.width() <= 128,
    {
        match self {
            DisplaySize::Display128x64 => {},
            DisplaySize::Display128x32 => {},
            DisplaySize::Display96x16 => {},
            DisplaySize::Display72x40 => {},
            DisplaySize::Display64x48 => {},
        }
    }

    /// Physical `(width, height)` in pixels.
    pub fn dimensions(&self) -> (r: (u8, u8))
        ensures
            r.0 == self.width(),
            r.1 == self.height(),
    {
        match self {
            DisplaySize::Display128x64 => (128, 64),
            DisplaySize::Display128x32 => (128, 32),
            DisplaySize::Display96x16 => (96, 16),
            DisplaySize::Display72x40 => (72, 40),
            DisplaySize::Display64x48 => (64, 48),
        }
    }

    /// Column and row offset of the panel inside the controller's memory.
    pub fn memory_offset(&self) -> (r: (u8, u8))
        ensures
            r == self.offset(),
    {
        match self {
            DisplaySize::Display72x40 => (28, 0),
            DisplaySize::Display64x48 => (32, 0),
            _ => (0, 0),
        }
    }

    /// The two flags of the COM pins hardware configuration command.
    pub fn com_pin_flags(&self) -> (r: (bool, bool))
        ensures
            r == self.com_pins(),
    {
        match self {
            DisplaySize::Display128x32 => (false, false),
            DisplaySize::Display96x16 => (false, false),
            _ => (true, false),
        }
    }
}

/// Rotation of the displayed image.
#[derive(Clone, Copy, Debug, PartialEq, Eq, Structural)]
pub enum DisplayRotation {
    Rotate0,
    Rotate90,
    Rotate180,
    Rotate270,
}

impl DisplayRotation {
    /// True for the quarter turns, where logical width and height swap.
    pub open spec fn is_quarter(self) -> bool {
        self == DisplayRotation::Rotate90 || self == DisplayRotation::Rotate270
    }

    /// The segment remap bit used to realise this rotation.
    pub open spec fn segment_remap(self) -> bool {
        self == DisplayRotation::Rotate0 || self == DisplayRotation::Rotate270
    }

    /// The reversed COM output direction bit used to realise this rotation.
    pub open spec fn reverse_com_dir(self) -> bool {
        self == DisplayRotation::Rotate0 || self == DisplayRotation::Rotate90
    }
}

/// Logical `(width, height)` of a panel seen under a rotation.
pub open spec fn logical_dims(size: DisplaySize, rotation: DisplayRotation) -> (nat, nat) {
    if rotation.is_quarter() {
        (size.height(), size.width())
    } else {
        (size.width(), size.height())
    }
}

/// The controller's memory addressing mode.
#[derive(Clone, Copy, Debug, PartialEq, Eq, Structural)]
pub enum AddrMode {
    Horizontal,
    Vertical,
    Page,
}

impl AddrMode {
    /// The register value that selects this mode.
    pub open spec fn code(self) -> u8 {
        match self {
            AddrMode::Horizontal => 0u8,
            AddrMode::Vertical => 1u8,
            AddrMode::Page => 2u8,
        }
    }
}

/// Pre-charge period and contrast of the panel.
#[derive(Clone, Copy, Debug, PartialEq, Eq, Structural)]
pub struct Brightness {
    pub precharge: u8,
    pub contrast: u8,
}

impl Brightness {
    /// A brightness with the given pre-charge period (valid from 1 to 15) and contrast.
    pub fn custom(precharge: u8, contrast: u8) -> (r: Brightness)
        ensures
            r.precharge == precharge,
            r.contrast == contrast,
    {
        Brightness { precharge, contrast }
    }

    /// The brightness a freshly initialised display uses.
    pub fn normal() -> (r: Brightness)
        ensures
            r.precharge == 2,
            r.contrast == 0x5f,
    {
        Brightness { precharge: 2, contrast: 0x5f }
    }
}

} // verus!
