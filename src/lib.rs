//! A driver for the SSD1963 display controller over a 16-bit parallel bus: rectangle
//! addressing, command encoding, bus sequencing, and fills and copies of pixel areas.
pub mod bit_twiddling;
pub mod bounds;
pub mod chunks;
pub mod commands;
pub mod controller;
pub mod display;
pub mod gpio16bit_interface;
pub mod protocol;

pub use bounds::{Bound, Bounds, OutOfBoundsError};
pub use controller::{DriverError, Lcd800x480, Screen, Ssd1963};
pub use display::{CopyArea, Display, ReadArea};
pub use gpio16bit_interface::{
    BusEvent, ControlLine, DelayUs, GpioReadWrite16BitInterface, GpioWriteOnly16BitInterface,
    ReadWriteInterface, ReadWritePort, WriteOnlyInterface, WritePort,
};
