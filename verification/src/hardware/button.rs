//! The push button: one bit of a GPIO status register.

use crate::hardware::RegWrite;
use vstd::prelude::*;

verus! {

/// Physical base address of the GPIO register page.
pub const GPIO_PAGE: usize = 0x8001_8000;

/// The status register that holds the button's pin.
pub const BUTTON_OFFSET: usize = 0x0610;

/// The button's bit in the status register.
pub const BUTTON_BIT: u32 = 0x80;

/// Whether the button's bit is set in a word: the eighth bit from the low
/// end, worth 128.
pub open spec fn bit_set(word: u32) -> bool {
    (word as int / 0x80) % 2 == 1
}

/// The pin reads low while the button is held down.
pub open spec fn pressed(word: u32) -> bool {
    !bit_set(word)
}

/// The button needs no configuration: there is nothing to store.
pub fn mem_init() -> (writes: Vec<RegWrite>)
    ensures
        writes@ == Seq::<RegWrite>::empty(),
{
    Vec::new()
}

/// Whether a word loaded from the status register shows the button pressed.
pub fn read(word: u32) -> (r: bool)
    ensures
        r == pressed(word),
{
    assert(((word & 0x80) == 0) == ((word / 0x80) % 2 != 1)) by (bit_vector);
    (word & BUTTON_BIT) == 0
}

} // verus!
