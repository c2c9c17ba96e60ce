use vstd::prelude::*;

verus! {

/// The conditions on an input pin that a handler can be registered for.
///
/// Each variant is a key of its own: an asynchronous edge detection is a
/// different detection path from its synchronous counterpart, and a
/// `BothEdges` registration is not matched by a `RisingEdge` dispatch.
#[derive(Clone, Copy, Debug, PartialEq, Eq, Structural)]
pub enum GpioEvent {
    /// The level changes from low to high.
    RisingEdge,
    /// The level changes from high to low.
    FallingEdge,
    /// The level changes in either direction.
    BothEdges,
    /// The level is high.
    High,
    /// The level is low.
    Low,
    /// Low to high, detected outside the peripheral's sampling clock.
    AsyncRisingEdge,
    /// High to low, detected outside the peripheral's sampling clock.
    AsyncFallingEdge,
    /// Either direction, detected outside the peripheral's sampling clock.
    AsyncBothEdges,
}

} // verus!
