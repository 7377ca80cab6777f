//! Read-modify-write updates of the two pin-control registers.

use vstd::prelude::*;

use crate::bits::{lemma_get_bit_of_set_bit, lemma_set_bit_preserves_others, set_bit,
    spec_get_bit, spec_set_bit};

verus! {

/// Electrical direction of a pin: whether it listens or drives.
#[derive(Clone, Copy, PartialEq, Eq, Structural, Debug)]
pub enum Direction {
    Input,
    Output,
}

/// The pin-control registers of the peripheral, as full 32-bit patterns:
/// bit `n` of each belongs to pin `n`. A value of this type is the pattern
/// pair that a read of the hardware block yields; the updates below compute
/// the patterns to write back.
#[derive(Clone, Copy, PartialEq, Eq, Structural, Debug)]
pub struct GpioRegisters {
    /// Direction register: a 1 bit makes the pin an output.
    pub direction: u32,
    /// Data-output register: the level driven on each output pin.
    pub data_output: u32,
}

impl GpioRegisters {
    /// Sets the direction of one pin: bit `pin` of the direction register
    /// becomes 1 exactly when `direction` is `Output`, every other bit of it
    /// stays, and the data-output register is untouched.
    pub fn set_direction(&mut self, pin: u8, direction: Direction)
        requires
            pin < 32,
        ensures
            final(self).direction == spec_set_bit(old(self).direction, pin as u32,
                direction is Output),
            final(self).data_output == old(self).data_output,
            spec_get_bit(final(self).direction, pin as u32) == (direction is Output),
            forall|q: u32| q < 32 && q != pin as u32
                ==> #[trigger] spec_get_bit(final(self).direction, q)
                    == spec_get_bit(old(self).direction, q),
    {
        let flag = direction == Direction::Output;
        self.direction = set_bit(self.direction, pin, flag);
        proof {
            lemma_get_bit_of_set_bit(old(self).direction, pin as u32, flag);
            assert forall|q: u32| q < 32 && q != pin as u32
                implies #[trigger] spec_get_bit(self.direction, q)
                    == spec_get_bit(old(self).direction, q) by {
                lemma_set_bit_preserves_others(old(self).direction, pin as u32, flag, q);
            }
        }
    }

    /// Sets the driven level of one pin: bit `pin` of the data-output
    /// register becomes `value`, every other bit of it stays, and the
    /// direction register is untouched.
    pub fn set_pin(&mut self, pin: u8, value: bool)
        requires
            pin < 32,
        ensures
            final(self).data_output == spec_set_bit(old(self).data_output, pin as u32, value),
            final(self).direction == old(self).direction,
            spec_get_bit(final(self).data_output, pin as u32) == value,
            forall|q: u32| q < 32 && q != pin as u32
                ==> #[trigger] spec_get_bit(final(self).data_output, q)
                    == spec_get_bit(old(self).data_output, q),
    {
        self.data_output = set_bit(self.data_output, pin, value);
        proof {
            lemma_get_bit_of_set_bit(old(self).data_output, pin as u32, value);
            assert forall|q: u32| q < 32 && q != pin as u32
                implies #[trigger] spec_get_bit(self.data_output, q)
                    == spec_get_bit(old(self).data_output, q) by {
                lemma_set_bit_preserves_others(old(self).data_output, pin as u32, value, q);
            }
        }
    }

}

} // verus!
