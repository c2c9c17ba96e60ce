use vstd::prelude::*;

verus! {

/// Why a pin operation was refused.
#[derive(Clone, Copy, Debug, PartialEq, Eq, Structural)]
pub enum GpioError {
    /// The pin with this id is held already.
    AlreadyInUse(u32),
    /// The pin with this id is not held.
    NotInUse(u32),
    /// The pin has no alternate function at this selector.
    UnsupportedAltFunction { pin: u32, function: u8 },
}

} // verus!
