use crate::error::GpioError;
use vstd::prelude::*;

verus! {

/// Pull-up / pull-down bias of a pin.
#[derive(Clone, Copy, Debug, PartialEq, Eq, Structural)]
pub enum Pud {
    Disabled,
    PullUp,
    PullDown,
}

/// Operations available on a pin in every role.
pub trait HalGpioPin {
    /// The pin's identifier.
    spec fn pin_id(&self) -> u32;

    /// The pin's current pull-up / pull-down setting.
    spec fn pud(&self) -> Pud;

    /// Returns the identifier of the pin.
    fn id(&self) -> (r: u32)
        ensures
            r == self.pin_id(),
    ;

    /// Returns the pin's current pull-up / pull-down setting.
    fn pull(&self) -> (r: Pud)
        ensures
            r == self.pud(),
    ;

    /// Disables the pull-up / pull-down bias; the role and id stay.
    fn disable_pud(&mut self)
        ensures
            final(self).pin_id() == old(self).pin_id(),
            final(self).pud() == Pud::Disabled,
    ;

    /// Enables the pull-up bias; the role and id stay.
    fn enable_pud_up(&mut self)
        ensures
            final(self).pin_id() == old(self).pin_id(),
            final(self).pud() == Pud::PullUp,
    ;

    /// Enables the pull-down bias; the role and id stay.
    fn enable_pud_down(&mut self)
        ensures
            final(self).pin_id() == old(self).pin_id(),
            final(self).pud() == Pud::PullDown,
    ;
}

/// A pin configured as an input.
pub trait HalGpioPinInput: HalGpioPin {
    /// The electrical level at the pin: `true` when high.
    spec fn level(&self) -> bool;

    /// Reads the level of the pin: `true` when it is high.
    fn is_high(&self) -> (r: bool)
        ensures
            r == self.level(),
    ;

    /// Reads the level of the pin: `true` when it is low.
    fn is_low(&self) -> (r: bool)
        ensures
            r == !self.level(),
    {
        !self.is_high()
    }
}

/// A pin configured as an output.
pub trait HalGpioPinOutput: HalGpioPin {
    /// The level the pin drives: `true` when high.
    spec fn driven(&self) -> bool;

    /// Drives the pin high.
    fn high(&mut self)
        ensures
            final(self).pin_id() == old(self).pin_id(),
            final(self).pud() == old(self).pud(),
            final(self).driven(),
    ;

    /// Drives the pin low.
    fn low(&mut self)
        ensures
            final(self).pin_id() == old(self).pin_id(),
            final(self).pud() == old(self).pud(),
            !final(self).driven(),
    ;

    /// Flips the driven level.
    fn toggle(&mut self)
        ensures
            final(self).pin_id() == old(self).pin_id(),
            final(self).pud() == old(self).pud(),
            final(self).driven() == !old(self).driven(),
    ;
}

/// A pin switched to one of its alternate (non-GPIO) functions.
pub trait HalGpioPinAltFunc: HalGpioPin {
    /// The selector of the alternate function in effect.
    spec fn alt_function(&self) -> u8;

    /// Returns the selector of the alternate function in effect.
    fn function(&self) -> (r: u8)
        ensures
            r == self.alt_function(),
    ;
}

} // verus!

verus! {

/// A pin as handed out by the manager: no role chosen yet.
///
/// A role is chosen by consuming the handle, so no two live handles can give
/// the same pin different roles.
pub struct GpioPin {
    id: u32,
    pud: Pud,
    alt_functions: Vec<u8>,
}

/// A pin configured as an input.
pub struct GpioPinInput {
    id: u32,
    pud: Pud,
    level: bool,
}

/// A pin configured as an output.
pub struct GpioPinOutput {
    id: u32,
    pud: Pud,
    level: bool,
}

/// A pin switched to an alternate function.
pub struct GpioPinAltFunc {
    id: u32,
    pud: Pud,
    function: u8,
}

impl GpioPin {
    /// Whether the hardware offers alternate function `function` on this pin.
    pub closed spec fn supports(&self, function: u8) -> bool {
        self.alt_functions@.contains(function)
    }

    /// A fresh handle for pin `id`, with its bias disabled and the given
    /// alternate function selectors available.
    pub(crate) fn new(id: u32, alt_functions: Vec<u8>) -> (r: GpioPin)
        ensures
            r.pin_id() == id,
            r.pud() == Pud::Disabled,
            forall|f: u8| r.supports(f) <==> alt_functions@.contains(f),
    {
        GpioPin { id, pud: Pud::Disabled, alt_functions }
    }

    /// Configures the pin as an input; it reads low until a level is sensed.
    pub fn into_input(self) -> (r: GpioPinInput)
        ensures
            r.pin_id() == self.pin_id(),
            r.pud() == self.pud(),
            !r.level(),
    {
        GpioPinInput { id: self.id, pud: self.pud, level: false }
    }

    /// Configures the pin as an output, driven low.
    pub fn into_output(self) -> (r: GpioPinOutput)
        ensures
            r.pin_id() == self.pin_id(),
            r.pud() == self.pud(),
            !r.driven(),
    {
        GpioPinOutput { id: self.id, pud: self.pud, level: false }
    }

    /// Switches the pin to alternate function `function`. Where the pin has no
    /// such function the handle is consumed all the same; the pin stays held
    /// by the caller until it is released at the manager.
    pub fn into_altfunc(self, function: u8) -> (r: Result<GpioPinAltFunc, GpioError>)
        ensures
            match r {
                Ok(p) => self.supports(function) && p.pin_id() == self.pin_id() && p.pud()
                    == self.pud() && p.alt_function() == function,
                Err(e) => !self.supports(function) && e == (GpioError::UnsupportedAltFunction {
                    pin: self.pin_id(),
                    function,
                }),
            },
    {
        let mut i: usize = 0;
        while i < self.alt_functions.len()
            invariant
                0 <= i <= self.alt_functions@.len(),
                forall|j: int| 0 <= j < i ==> self.alt_functions@[j] != function,
            decreases self.alt_functions@.len() - i,
        {
            if self.alt_functions[i] == function {
                return Ok(GpioPinAltFunc { id: self.id, pud: self.pud, function });
            }
            i = i + 1;
        }
        Err(GpioError::UnsupportedAltFunction { pin: self.id, function })
    }
}

impl HalGpioPin for GpioPin {
    closed spec fn pin_id(&self) -> u32 {
        self.id
    }

    closed spec fn pud(&self) -> Pud {
        self.pud
    }

    fn id(&self) -> (r: u32) {
        self.id
    }

    fn pull(&self) -> (r: Pud) {
        self.pud
    }

    fn disable_pud(&mut self) {
        self.pud = Pud::Disabled;
    }

    fn enable_pud_up(&mut self) {
        self.pud = Pud::PullUp;
    }

    fn enable_pud_down(&mut self) {
        self.pud = Pud::PullDown;
    }
}

} // verus!

verus! {

impl GpioPinInput {
    /// Records the level that the outside world presents at the pin, as
    /// sampled from the hardware's level register.
    pub fn sense(&mut self, high: bool)
        ensures
            final(self).pin_id() == old(self).pin_id(),
            final(self).pud() == old(self).pud(),
            final(self).level() == high,
    {
        self.level = high;
    }
}

impl HalGpioPin for GpioPinInput {
    closed spec fn pin_id(&self) -> u32 {
        self.id
    }

    closed spec fn pud(&self) -> Pud {
        self.pud
    }

    fn id(&self) -> (r: u32) {
        self.id
    }

    fn pull(&self) -> (r: Pud) {
        self.pud
    }

    fn disable_pud(&mut self) {
        self.pud = Pud::Disabled;
    }

    fn enable_pud_up(&mut self) {
        self.pud = Pud::PullUp;
    }

    fn enable_pud_down(&mut self) {
        self.pud = Pud::PullDown;
    }
}

impl HalGpioPinInput for GpioPinInput {
    closed spec fn level(&self) -> bool {
        self.level
    }

    fn is_high(&self) -> (r: bool) {
        self.level
    }
}

impl GpioPinOutput {
    /// Returns the level the pin drives: `true` when high.
    pub fn is_set_high(&self) -> (r: bool)
        ensures
            r == self.driven(),
    {
        self.level
    }
}

impl HalGpioPin for GpioPinOutput {
    closed spec fn pin_id(&self) -> u32 {
        self.id
    }

    closed spec fn pud(&self) -> Pud {
        self.pud
    }

    fn id(&self) -> (r: u32) {
        self.id
    }

    fn pull(&self) -> (r: Pud) {
        self.pud
    }

    fn disable_pud(&mut self) {
        self.pud = Pud::Disabled;
    }

    fn enable_pud_up(&mut self) {
        self.pud = Pud::PullUp;
    }

    fn enable_pud_down(&mut self) {
        self.pud = Pud::PullDown;
    }
}

impl HalGpioPinOutput for GpioPinOutput {
    closed spec fn driven(&self) -> bool {
        self.level
    }

    fn high(&mut self) {
        self.level = true;
    }

    fn low(&mut self) {
        self.level = false;
    }

    fn toggle(&mut self) {
        self.level = !self.level;
    }
}

impl HalGpioPin for GpioPinAltFunc {
    closed spec fn pin_id(&self) -> u32 {
        self.id
    }

    closed spec fn pud(&self) -> Pud {
        self.pud
    }

    fn id(&self) -> (r: u32) {
        self.id
    }

    fn pull(&self) -> (r: Pud) {
        self.pud
    }

    fn disable_pud(&mut self) {
        self.pud = Pud::Disabled;
    }

    fn enable_pud_up(&mut self) {
        self.pud = Pud::PullUp;
    }

    fn enable_pud_down(&mut self) {
        self.pud = Pud::PullDown;
    }
}

impl HalGpioPinAltFunc for GpioPinAltFunc {
    closed spec fn alt_function(&self) -> u8 {
        self.function
    }

    fn function(&self) -> (r: u8) {
        self.function
    }
}

} // verus!
