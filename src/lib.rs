//! Typed, bounds-checked access to the I2C buses and VGA displays of a
//! congatec board, as served by the CGOS board library.
//!
//! The library never calls the native layer itself. For each operation it
//! builds the native call, with every argument checked and converted, and it
//! turns what the native call returned into a typed result. Whoever links the
//! native library makes the call in between.
pub mod i2c;
pub mod vga;
