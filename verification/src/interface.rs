//! Constructors for the two pre-built bus interfaces of the host
//! environment: a two-wire (I2C) adapter at a fixed bus address, and a
//! four-wire (SPI) adapter paired with a data/command select line.
//!
//! The returned values are the adapter types of the `display-interface-i2c`
//! and `display-interface-spi` crates; they are opaque here and only carried
//! through. Wiring one of them up as a [`crate::transport::DisplayTransport`]
//! is the host environment's part.

use vstd::prelude::*;

use display_interface_i2c::I2CInterface;
use display_interface_spi::SPIInterface;

verus! {

#[verifier::external_type_specification]
#[verifier::external_body]
#[verifier::reject_recursive_types(I2C)]
pub struct ExI2CInterface<I2C>(I2CInterface<I2C>);

#[verifier::external_type_specification]
#[verifier::external_body]
#[verifier::reject_recursive_types(SPI)]
#[verifier::reject_recursive_types(DC)]
pub struct ExSPIInterface<SPI, DC>(SPIInterface<SPI, DC>);

/// Namespace for the two-wire (I2C) interface constructors.
pub struct I2cDisplayInterface;

impl I2cDisplayInterface {
    /// Creates a new I2C interface at the default screen address `0x3c`.
    ///
    /// `i2c` is the instance of the I2C device.
    ///
    /// Relies on display_interface_i2c::I2CInterface::new to build the
    /// adapter over the bus instance; `0x40` marks data-phase payloads.
    #[verifier::external_body]
    pub fn new_interface<I>(i2c: I) -> I2CInterface<I> {
        I2CInterface::new(i2c, 0x3c, 0x40)
    }

    /// Creates a new I2C interface at the alternative screen address `0x3d`.
    ///
    /// Relies on display_interface_i2c::I2CInterface::new to build the
    /// adapter over the bus instance; `0x40` marks data-phase payloads.
    #[verifier::external_body]
    pub fn new_alternative_interface<I>(i2c: I) -> I2CInterface<I> {
        I2CInterface::new(i2c, 0x3d, 0x40)
    }

    /// Creates a new I2C interface at a caller-chosen screen address.
    ///
    /// Relies on display_interface_i2c::I2CInterface::new to build the
    /// adapter over the bus instance; `0x40` marks data-phase payloads.
    #[verifier::external_body]
    pub fn new_custom_interface<I>(i2c: I, addr: u8) -> I2CInterface<I> {
        I2CInterface::new(i2c, addr, 0x40)
    }
}

/// Namespace for the four-wire (SPI) interface constructor.
pub struct SpiDisplayInterface;

impl SpiDisplayInterface {
    /// Creates a new SPI interface.
    ///
    /// `spi` is the instance of the SPI device while `dc` is the instance of
    /// the GPIO line that selects between the data and command phases.
    ///
    /// Relies on display_interface_spi::SPIInterface::new to pair the bus
    /// instance with the data/command select line.
    #[verifier::external_body]
    pub fn new_interface<S, DC>(spi: S, dc: DC) -> SPIInterface<S, DC> {
        SPIInterface::new(spi, dc)
    }
}

} // verus!
