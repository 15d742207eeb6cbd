//! Decoder for a cartridge-image container format and its bitplane-encoded
//! graphics tiles.
//!
//! The `ines` module validates and decodes the container layout (header,
//! optional trainer, program data, optional graphics data); the `lemonade`
//! module walks a graphics-data region as fixed-size tile records and resolves
//! each record against a palette into an 8x8 grid of colours.

pub mod bits;
pub mod ines;
pub mod lemonade;
