//! Verified core of a driver for a bank of general-purpose I/O pins.
//!
//! The peripheral exposes two 32-bit registers, a direction register and a
//! data-output register, in which bit `n` belongs to pin `n`. Configuring a
//! pin or driving its level is a read-modify-write of one register: read the
//! full pattern, change exactly one bit, write the pattern back. This crate
//! holds that discipline — the bit utility and the register update logic —
//! with proofs that each operation touches exactly the requested bit.
//!
//! The memory-mapped access to the physical register block is not part of
//! this crate: a thin hardware-facing layer reads a register, asks this crate
//! for the new pattern, and writes it back.

pub mod bits;
pub mod gpio;
