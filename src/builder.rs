//! Fluent configuration of a display before it is connected to a bus.
use vstd::prelude::*;
use crate::geometry::{AddrMode, DisplayRotation, DisplaySize};
use crate::interface::DisplayInterface;
use crate::properties::DisplayProperties;

verus! {

/// Chooses the panel size and rotation, then connects to a channel.
#[derive(Clone, Copy, Debug, PartialEq, Eq, Structural)]
pub struct Builder {
    pub display_size: DisplaySize,
    pub rotation: DisplayRotation,
}

impl Builder {
    /// A 128 x 64 panel without rotation.
    pub fn new() -> (r: Builder)
        ensures
            r.display_size == DisplaySize::Display128x64,
            r.rotation == DisplayRotation::Rotate0,
    {
        Builder { display_size: DisplaySize::Display128x64, rotation: DisplayRotation::Rotate0 }
    }

    /// The same configuration with another rotation.
    pub fn with_rotation(self, rotation: DisplayRotation) -> (r: Builder)
        ensures
            r.display_size == self.display_size,
            r.rotation == rotation,
    {
        Builder { rotation, ..self }
    }

    /// The same configuration with another panel size.
    pub fn size(self, display_size: DisplaySize) -> (r: Builder)
        ensures
            r.display_size == display_size,
            r.rotation == self.rotation,
    {
        Builder { display_size, ..self }
    }

    /// The same configuration with a rotation chosen once for the display's lifetime.
    /// Rotation is a runtime value here, so this sets it as `with_rotation` does.
    pub fn with_fixed_rotation(self, rotation: DisplayRotation) -> (r: Builder)
        ensures
            r.display_size == self.display_size,
            r.rotation == rotation,
    {
        self.with_rotation(rotation)
    }

    /// Finishes the configuration on a channel.
    pub fn connect<DI: DisplayInterface>(self, interface: DI) -> (r: DisplayProperties<DI>)
        ensures
            r.size() == self.display_size,
            r.rotation() == self.rotation,
            r.mode() == AddrMode::Page,
            r.iface() == interface,
            r.bus() == interface.sent(),
    {
        DisplayProperties::new(interface, self.display_size, self.rotation)
    }
}

impl Default for Builder {
    fn default() -> (r: Builder)
        ensures
            r.display_size == DisplaySize::Display128x64,
            r.rotation == DisplayRotation::Rotate0,
    {
        Builder::new()
    }
}

/// Chooses the I2C address of the controller.
#[derive(Clone, Copy, Debug, PartialEq, Eq, Structural)]
pub struct I2CDIBuilder {
    pub i2c_addr: u8,
}

impl I2CDIBuilder {
    /// The most common address, 0x3C.
    pub fn new() -> (r: I2CDIBuilder)
        ensures
            r.i2c_addr == 0x3c,
    {
        I2CDIBuilder { i2c_addr: 0x3c }
    }

    /// The same builder with another address; the datasheet's other one is 0x3D.
    pub fn with_i2c_addr(self, i2c_addr: u8) -> (r: I2CDIBuilder)
        ensures
            r.i2c_addr == i2c_addr,
    {
        I2CDIBuilder { i2c_addr }
    }
}

impl Default for I2CDIBuilder {
    fn default() -> (r: I2CDIBuilder)
        ensures
            r.i2c_addr == 0x3c,
    {
        I2CDIBuilder::new()
    }
}

} // verus!
