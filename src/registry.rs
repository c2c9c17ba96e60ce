use crate::events::GpioEvent;
use vstd::prelude::*;

verus! {

/// What a caller registers in place of a callback: a token that the caller
/// maps to the code to run.
pub type HandlerId = u64;

/// How long a registration lives.
#[derive(Clone, Copy, Debug, PartialEq, Eq, Structural)]
pub enum HandlerMode {
    /// Stays until it is unregistered.
    Always,
    /// Removed right after the first dispatch that runs it.
    OnceOnly,
}

/// One handler registered for one (pin, event) key.
#[derive(Clone, Copy, Debug, PartialEq, Eq, Structural)]
pub struct Registration {
    pub pin: u32,
    pub event: GpioEvent,
    pub mode: HandlerMode,
    pub handler: HandlerId,
}

/// Whether `r` is registered under the key (`pin`, `event`).
pub open spec fn has_key(r: Registration, pin: u32, event: GpioEvent) -> bool {
    r.pin == pin && r.event == event
}

/// Registrations that are not under the key (`pin`, `event`).
pub open spec fn other_key(pin: u32, event: GpioEvent) -> spec_fn(Registration) -> bool {
    |r: Registration| !has_key(r, pin, event)
}

/// Registrations that are not for pin `pin`.
pub open spec fn other_pin(pin: u32) -> spec_fn(Registration) -> bool {
    |r: Registration| r.pin != pin
}

/// Registrations that survive a dispatch of (`pin`, `event`): all but the
/// one-shot ones under that key.
pub open spec fn survives(pin: u32, event: GpioEvent) -> spec_fn(Registration) -> bool {
    |r: Registration| !(has_key(r, pin, event) && r.mode == HandlerMode::OnceOnly)
}

/// The handler of `r` where it is under the key (`pin`, `event`).
pub open spec fn handler_for(pin: u32, event: GpioEvent) -> spec_fn(Registration) -> Option<
    HandlerId,
> {
    |r: Registration|
        if has_key(r, pin, event) {
            Some(r.handler)
        } else {
            None
        }
}

/// The handlers that a dispatch of (`pin`, `event`) runs on `regs`, in
/// registration order.
pub open spec fn fired(regs: Seq<Registration>, pin: u32, event: GpioEvent) -> Seq<HandlerId> {
    regs.filter_map(handler_for(pin, event))
}

/// The registrations left after a dispatch of (`pin`, `event`) on `regs`.
pub open spec fn after_dispatch(regs: Seq<Registration>, pin: u32, event: GpioEvent) -> Seq<
    Registration,
> {
    regs.filter(survives(pin, event))
}

/// The registrations left after unregistering (`pin`, `event`) on `regs`.
pub open spec fn without_key(regs: Seq<Registration>, pin: u32, event: GpioEvent) -> Seq<
    Registration,
> {
    regs.filter(other_key(pin, event))
}

/// The registrations left after dropping all of pin `pin` from `regs`.
pub open spec fn without_pin(regs: Seq<Registration>, pin: u32) -> Seq<Registration> {
    regs.filter(other_pin(pin))
}

/// The table of registrations, in the order they were made.
pub struct EventRegistry {
    entries: Vec<Registration>,
}

impl View for EventRegistry {
    type V = Seq<Registration>;

    closed spec fn view(&self) -> Seq<Registration> {
        self.entries@
    }
}

impl EventRegistry {
    /// An empty table.
    pub fn new() -> (r: EventRegistry)
        ensures
            r@ == Seq::<Registration>::empty(),
    {
        EventRegistry { entries: Vec::new() }
    }

    /// The registrations, in the order they were made.
    pub fn entries(&self) -> (r: &Vec<Registration>)
        ensures
            r@ == self@,
    {
        &self.entries
    }

    /// Adds `reg` after all earlier registrations.
    pub fn register(&mut self, reg: Registration)
        ensures
            final(self)@ == old(self)@.push(reg),
    {
        self.entries.push(reg);
    }

    /// Removes every registration under (`pin`, `event`), whatever its mode.
    pub fn unregister(&mut self, pin: u32, event: GpioEvent)
        ensures
            final(self)@ == without_key(old(self)@, pin, event),
    {
        let ghost regs = self.entries@;
        let mut kept: Vec<Registration> = Vec::new();
        let mut i: usize = 0;
        while i < self.entries.len()
            invariant
                self.entries@ == regs,
                0 <= i <= regs.len(),
                kept@ == regs.subrange(0, i as int).filter(other_key(pin, event)),
            decreases regs.len() - i,
        {
            let x = self.entries[i];
            proof {
                assert(regs.subrange(0, i + 1) == regs.subrange(0, i as int).push(x));
                regs.subrange(0, i as int).lemma_filter_push(x, other_key(pin, event));
            }
            if !(x.pin == pin && x.event == event) {
                kept.push(x);
            }
            i = i + 1;
        }
        assert(regs.subrange(0, regs.len() as int) == regs);
        self.entries = kept;
    }

    /// Removes every registration for pin `pin`.
    pub fn clear_pin(&mut self, pin: u32)
        ensures
            final(self)@ == without_pin(old(self)@, pin),
    {
        let ghost regs = self.entries@;
        let mut kept: Vec<Registration> = Vec::new();
        let mut i: usize = 0;
        while i < self.entries.len()
            invariant
                self.entries@ == regs,
                0 <= i <= regs.len(),
                kept@ == regs.subrange(0, i as int).filter(other_pin(pin)),
            decreases regs.len() - i,
        {
            let x = self.entries[i];
            proof {
                assert(regs.subrange(0, i + 1) == regs.subrange(0, i as int).push(x));
                regs.subrange(0, i as int).lemma_filter_push(x, other_pin(pin));
            }
            if x.pin != pin {
                kept.push(x);
            }
            i = i + 1;
        }
        assert(regs.subrange(0, regs.len() as int) == regs);
        self.entries = kept;
    }

    /// Returns the handlers to run for (`pin`, `event`), in registration
    /// order, and drops the one-shot registrations among them.
    pub fn dispatch(&mut self, pin: u32, event: GpioEvent) -> (r: Vec<HandlerId>)
        ensures
            r@ == fired(old(self)@, pin, event),
            final(self)@ == after_dispatch(old(self)@, pin, event),
    {
        let ghost regs = self.entries@;
        let mut kept: Vec<Registration> = Vec::new();
        let mut run: Vec<HandlerId> = Vec::new();
        let mut i: usize = 0;
        while i < self.entries.len()
            invariant
                self.entries@ == regs,
                0 <= i <= regs.len(),
                kept@ == regs.subrange(0, i as int).filter(survives(pin, event)),
                run@ == fired(regs.subrange(0, i as int), pin, event),
            decreases regs.len() - i,
        {
            let x = self.entries[i];
            proof {
                let pre = regs.subrange(0, i as int);
                assert(regs.subrange(0, i + 1) == pre.push(x));
                pre.lemma_filter_push(x, survives(pin, event));
                assert(pre.push(x).drop_last() == pre);
            }
            if x.pin == pin && x.event == event {
                run.push(x.handler);
                if x.mode == HandlerMode::Always {
                    kept.push(x);
                }
            } else {
                kept.push(x);
            }
            i = i + 1;
        }
        assert(regs.subrange(0, regs.len() as int) == regs);
        self.entries = kept;
        run
    }
}

} // verus!

verus! {

/// How the handlers that a dispatch runs grow with one more registration.
pub proof fn lemma_fired_push(regs: Seq<Registration>, x: Registration, pin: u32, event: GpioEvent)
    ensures
        fired(regs.push(x), pin, event) == if has_key(x, pin, event) {
            fired(regs, pin, event).push(x.handler)
        } else {
            fired(regs, pin, event)
        },
{
    assert(regs.push(x).drop_last() == regs);
    assert(regs.push(x).last() == x);
    assert(fired(regs, pin, event) + seq![x.handler] =~= fired(regs, pin, event).push(x.handler));
}

/// After every handler of (`pin`, `event`) is unregistered, whatever its
/// mode, a dispatch of that key runs none.
pub proof fn lemma_unregister_complete(regs: Seq<Registration>, pin: u32, event: GpioEvent)
    ensures
        fired(without_key(regs, pin, event), pin, event) == Seq::<HandlerId>::empty(),
    decreases regs.len(),
{
    if regs.len() == 0 {
        regs.lemma_filter_len(other_key(pin, event));
        assert(without_key(regs, pin, event) =~= Seq::<Registration>::empty());
    } else {
        let rest = regs.drop_last();
        let x = regs.last();
        assert(regs == rest.push(x));
        lemma_unregister_complete(rest, pin, event);
        rest.lemma_filter_push(x, other_key(pin, event));
        if !has_key(x, pin, event) {
            lemma_fired_push(without_key(rest, pin, event), x, pin, event);
        }
    }
}

/// A registration under any key other than (`pin`, `event`) neither runs on
/// a dispatch of (`pin`, `event`) nor is removed by it.
pub proof fn lemma_key_independence(
    regs: Seq<Registration>,
    other: Registration,
    pin: u32,
    event: GpioEvent,
)
    requires
        !has_key(other, pin, event),
    ensures
        fired(regs.push(other), pin, event) == fired(regs, pin, event),
        after_dispatch(regs.push(other), pin, event) == after_dispatch(regs, pin, event).push(
            other,
        ),
{
    lemma_fired_push(regs, other, pin, event);
    regs.lemma_filter_push(other, survives(pin, event));
}

} // verus!

verus! {

/// A registration under (`pin`, `event`) runs on a dispatch of that key; it
/// stays registered afterwards when its mode is `Always` and is gone when it
/// is `OnceOnly`.
pub proof fn lemma_dispatch_modes(regs: Seq<Registration>, reg: Registration, pin: u32, event: GpioEvent)
    requires
        has_key(reg, pin, event),
    ensures
        fired(regs.push(reg), pin, event) == fired(regs, pin, event).push(reg.handler),
        after_dispatch(regs.push(reg), pin, event) == if reg.mode == HandlerMode::Always {
            after_dispatch(regs, pin, event).push(reg)
        } else {
            after_dispatch(regs, pin, event)
        },
{
    lemma_fired_push(regs, reg, pin, event);
    regs.lemma_filter_push(reg, survives(pin, event));
}

} // verus!
