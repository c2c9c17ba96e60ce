//! GPIO hardware abstraction: capability-typed pin handles, a pin manager that
//! hands out pins exclusively, and a registry that routes detected pin events
//! to registered handlers.

mod events;
pub use events::GpioEvent;

mod pin;
pub use pin::{
    GpioPin, GpioPinAltFunc, GpioPinInput, GpioPinOutput, HalGpioPin, HalGpioPinAltFunc,
    HalGpioPinInput, HalGpioPinOutput, Pud,
};

mod error;
pub use error::GpioError;

mod registry;
pub use registry::{
    after_dispatch, fired, handler_for, has_key, lemma_dispatch_modes, lemma_fired_push,
    lemma_key_independence, lemma_unregister_complete, other_key, other_pin, survives,
    without_key, without_pin, EventRegistry, HandlerId, HandlerMode, Registration,
};

mod gpio;
pub use gpio::{
    acquire, lemma_acquire_exclusive, lemma_release_symmetry, release, Gpio, HalGpio,
};
