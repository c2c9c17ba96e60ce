use crate::error::GpioError;
use crate::events::GpioEvent;
use crate::pin::{GpioPin, HalGpioPin, HalGpioPinInput};
use crate::registry::{
    after_dispatch, fired, without_key, without_pin, EventRegistry, HandlerId, HandlerMode,
    Registration,
};
use vstd::prelude::*;

verus! {

/// The set of held pins after acquiring `id` from `held`, or `None` where
/// `id` is held already.
pub open spec fn acquire(held: Set<u32>, id: u32) -> Option<Set<u32>> {
    if held.contains(id) {
        None
    } else {
        Some(held.insert(id))
    }
}

/// The set of held pins after releasing `id` from `held`, or `None` where
/// `id` is not held.
pub open spec fn release(held: Set<u32>, id: u32) -> Option<Set<u32>> {
    if held.contains(id) {
        Some(held.remove(id))
    } else {
        None
    }
}

/// The manager of a GPIO peripheral: hands out pins exclusively and keeps
/// the handlers registered for pin events.
pub trait HalGpio {
    /// The ids of the pins held by some caller.
    spec fn in_use(&self) -> Set<u32>;

    /// The registered handlers, in the order they were registered.
    spec fn registrations(&self) -> Seq<Registration>;

    /// The (pin id, function selector) pairs of the alternate functions that
    /// the hardware offers.
    spec fn alt_functions(&self) -> Set<(u32, u8)>;

    /// The manager's own bookkeeping is consistent.
    spec fn wf(&self) -> bool;

    /// Hands out pin `id` with no role chosen yet, unless it is held already.
    fn use_pin(&mut self, id: u32) -> (r: Result<GpioPin, GpioError>)
        requires
            old(self).wf(),
        ensures
            final(self).wf(),
            final(self).alt_functions() == old(self).alt_functions(),
            final(self).registrations() == old(self).registrations(),
            match r {
                Ok(p) => acquire(old(self).in_use(), id) == Some(final(self).in_use())
                    && p.pin_id() == id && forall|f: u8|
                    p.supports(f) <==> old(self).alt_functions().contains((id, f)),
                Err(e) => acquire(old(self).in_use(), id) is None && e == GpioError::AlreadyInUse(
                    id,
                ) && final(self).in_use() == old(self).in_use(),
            },
    ;

    /// Takes pin `id` back, together with every handler registered for it,
    /// unless it is not held.
    fn release_pin(&mut self, id: u32) -> (r: Result<(), GpioError>)
        requires
            old(self).wf(),
        ensures
            final(self).wf(),
            final(self).alt_functions() == old(self).alt_functions(),
            match r {
                Ok(_) => release(old(self).in_use(), id) == Some(final(self).in_use())
                    && final(self).registrations() == without_pin(old(self).registrations(), id),
                Err(e) => release(old(self).in_use(), id) is None && e == GpioError::NotInUse(id)
                    && final(self).in_use() == old(self).in_use() && final(self).registrations()
                    == old(self).registrations(),
            },
    ;

    /// Registers `handler` to run on every dispatch of `event` on the pin.
    fn register_event_handler_always<P: HalGpioPinInput>(
        &mut self,
        gpio_pin: &P,
        event: GpioEvent,
        handler: HandlerId,
    )
        requires
            old(self).wf(),
        ensures
            final(self).wf(),
            final(self).alt_functions() == old(self).alt_functions(),
            final(self).in_use() == old(self).in_use(),
            final(self).registrations() == old(self).registrations().push(
                Registration { pin: gpio_pin.pin_id(), event, mode: HandlerMode::Always, handler },
            ),
    ;

    /// Registers `handler` to run on the next dispatch of `event` on the pin
    /// only.
    fn register_event_handler_onetime<P: HalGpioPinInput>(
        &mut self,
        gpio_pin: &P,
        event: GpioEvent,
        handler: HandlerId,
    )
        requires
            old(self).wf(),
        ensures
            final(self).wf(),
            final(self).alt_functions() == old(self).alt_functions(),
            final(self).in_use() == old(self).in_use(),
            final(self).registrations() == old(self).registrations().push(
                Registration { pin: gpio_pin.pin_id(), event, mode: HandlerMode::OnceOnly, handler },
            ),
    ;

    /// Removes every handler registered for `event` on the pin, whatever its
    /// mode.
    fn unregister_event_handler<P: HalGpioPin>(&mut self, gpio_pin: &P, event: GpioEvent)
        requires
            old(self).wf(),
        ensures
            final(self).wf(),
            final(self).alt_functions() == old(self).alt_functions(),
            final(self).in_use() == old(self).in_use(),
            final(self).registrations() == without_key(
                old(self).registrations(),
                gpio_pin.pin_id(),
                event,
            ),
    ;

    /// Reports that `event` occurred on pin `pin`: returns the handlers to
    /// run, in registration order, and drops the one-shot ones among them.
    fn dispatch(&mut self, pin: u32, event: GpioEvent) -> (r: Vec<HandlerId>)
        requires
            old(self).wf(),
        ensures
            final(self).wf(),
            final(self).alt_functions() == old(self).alt_functions(),
            final(self).in_use() == old(self).in_use(),
            r@ == fired(old(self).registrations(), pin, event),
            final(self).registrations() == after_dispatch(old(self).registrations(), pin, event),
    ;
}

/// A GPIO peripheral whose alternate functions are given as a table of
/// (pin id, function selector) pairs.
pub struct Gpio {
    held: Vec<u32>,
    alt_functions: Vec<(u32, u8)>,
    registry: EventRegistry,
}

impl Gpio {
    /// A peripheral with no pin held and no handler registered, offering the
    /// alternate functions listed in `alt_functions`.
    pub fn new(alt_functions: Vec<(u32, u8)>) -> (r: Gpio)
        ensures
            r.wf(),
            r.in_use() == Set::<u32>::empty(),
            r.registrations() == Seq::<Registration>::empty(),
            r.alt_functions() == alt_functions@.to_set(),
    {
        let r = Gpio { held: Vec::new(), alt_functions, registry: EventRegistry::new() };
        assert(r.held@.to_set() =~= Set::<u32>::empty());
        r
    }

    /// The registered handlers, in the order they were registered.
    pub fn registered(&self) -> (r: &Vec<Registration>)
        ensures
            r@ == self.registrations(),
    {
        self.registry.entries()
    }

    /// The position of `id` among the held pins, if it is held.
    fn position(&self, id: u32) -> (r: Option<usize>)
        ensures
            match r {
                Some(i) => i < self.held@.len() && self.held@[i as int] == id,
                None => !self.held@.contains(id),
            },
    {
        let mut i: usize = 0;
        while i < self.held.len()
            invariant
                0 <= i <= self.held@.len(),
                forall|j: int| 0 <= j < i ==> self.held@[j] != id,
            decreases self.held@.len() - i,
        {
            if self.held[i] == id {
                return Some(i);
            }
            i = i + 1;
        }
        None
    }

    /// The alternate function selectors offered on pin `id`.
    fn functions_of(&self, id: u32) -> (r: Vec<u8>)
        ensures
            forall|f: u8| r@.contains(f) <==> self.alt_functions@.contains((id, f)),
    {
        let mut r: Vec<u8> = Vec::new();
        let mut i: usize = 0;
        while i < self.alt_functions.len()
            invariant
                0 <= i <= self.alt_functions@.len(),
                forall|f: u8|
                    r@.contains(f) <==> self.alt_functions@.subrange(0, i as int).contains(
                        (id, f),
                    ),
            decreases self.alt_functions@.len() - i,
        {
            let (p, f) = self.alt_functions[i];
            let ghost pre = self.alt_functions@.subrange(0, i as int);
            let ghost r0 = r@;
            proof {
                assert(self.alt_functions@.subrange(0, i + 1) == pre.push((p, f)));
                assert forall|g: u8| pre.push((p, f)).contains((id, g)) <==> (pre.contains((id, g)) || (p == id && f == g)) by {
                    if pre.push((p, f)).contains((id, g)) {
                        let k = choose|k: int| 0 <= k < pre.len() + 1 && pre.push((p, f))[k] == (id, g);
                        if k < pre.len() {
                            assert(pre[k] == (id, g));
                        }
                    }
                    if pre.contains((id, g)) {
                        let k = choose|k: int| 0 <= k < pre.len() && pre[k] == (id, g);
                        assert(pre.push((p, f))[k] == (id, g));
                    }
                    if p == id && f == g {
                        assert(pre.push((p, f))[pre.len() as int] == (id, g));
                    }
                }
            }
            if p == id {
                let ghost before = r@;
                r.push(f);
                proof {
                    assert forall|g: u8| r@.contains(g) <==> (before.contains(g) || g == f) by {
                        if r@.contains(g) {
                            let k = choose|k: int| 0 <= k < r@.len() && r@[k] == g;
                            if k < before.len() {
                                assert(before[k] == g);
                            }
                        }
                        if before.contains(g) {
                            let k = choose|k: int| 0 <= k < before.len() && before[k] == g;
                            assert(r@[k] == g);
                        }
                        if g == f {
                            assert(r@[before.len() as int] == g);
                        }
                    }
                }
            }
            assert forall|g: u8| r@.contains(g) <==> self.alt_functions@.subrange(0, i + 1).contains((id, g)) by {
                assert(r0.contains(g) <==> pre.contains((id, g)));
                assert(pre.push((p, f)).contains((id, g)) <==> (pre.contains((id, g)) || (p == id && f == g)));
            }
            i = i + 1;
        }
        assert(self.alt_functions@.subrange(0, self.alt_functions@.len() as int)
            == self.alt_functions@);
        r
    }
}

} // verus!

verus! {

impl HalGpio for Gpio {
    closed spec fn in_use(&self) -> Set<u32> {
        self.held@.to_set()
    }

    closed spec fn registrations(&self) -> Seq<Registration> {
        self.registry@
    }

    closed spec fn alt_functions(&self) -> Set<(u32, u8)> {
        self.alt_functions@.to_set()
    }

    closed spec fn wf(&self) -> bool {
        self.held@.no_duplicates()
    }

    fn use_pin(&mut self, id: u32) -> (r: Result<GpioPin, GpioError>) {
        match self.position(id) {
            Some(_) => Err(GpioError::AlreadyInUse(id)),
            None => {
                let functions = self.functions_of(id);
                let ghost before = self.held@;
                self.held.push(id);
                proof {
                    assert(self.held@ == before.push(id));
                    assert forall|x: u32| self.held@.contains(x) <==> (before.contains(x) || x == id) by {
                        if self.held@.contains(x) {
                            let k = choose|k: int| 0 <= k < self.held@.len() && self.held@[k] == x;
                            if k < before.len() {
                                assert(before[k] == x);
                            }
                        }
                        if before.contains(x) {
                            let k = choose|k: int| 0 <= k < before.len() && before[k] == x;
                            assert(self.held@[k] == x);
                        }
                        if x == id {
                            assert(self.held@[before.len() as int] == x);
                        }
                    }
                    assert(self.held@.to_set() =~= before.to_set().insert(id));
                }
                Ok(GpioPin::new(id, functions))
            },
        }
    }

    fn release_pin(&mut self, id: u32) -> (r: Result<(), GpioError>) {
        match self.position(id) {
            None => Err(GpioError::NotInUse(id)),
            Some(i) => {
                let ghost before = self.held@;
                self.held.remove(i);
                proof {
                    assert(self.held@ == before.remove(i as int));
                    assert forall|x: u32| self.held@.contains(x) <==> (before.contains(x) && x != id) by {
                        if self.held@.contains(x) {
                            let k = choose|k: int| 0 <= k < self.held@.len() && self.held@[k] == x;
                            if k < i {
                                assert(before[k] == x);
                            } else {
                                assert(before[k + 1] == x);
                            }
                        }
                        if before.contains(x) && x != id {
                            let k = choose|k: int| 0 <= k < before.len() && before[k] == x;
                            if k < i {
                                assert(self.held@[k] == x);
                            } else {
                                assert(k != i);
                                assert(self.held@[k - 1] == x);
                            }
                        }
                    }
                    assert(self.held@.to_set() =~= before.to_set().remove(id));
                }
                self.registry.clear_pin(id);
                Ok(())
            },
        }
    }

    fn register_event_handler_always<P: HalGpioPinInput>(
        &mut self,
        gpio_pin: &P,
        event: GpioEvent,
        handler: HandlerId,
    ) {
        let pin = gpio_pin.id();
        self.registry.register(Registration { pin, event, mode: HandlerMode::Always, handler });
    }

    fn register_event_handler_onetime<P: HalGpioPinInput>(
        &mut self,
        gpio_pin: &P,
        event: GpioEvent,
        handler: HandlerId,
    ) {
        let pin = gpio_pin.id();
        self.registry.register(Registration { pin, event, mode: HandlerMode::OnceOnly, handler });
    }

    fn unregister_event_handler<P: HalGpioPin>(&mut self, gpio_pin: &P, event: GpioEvent) {
        let pin = gpio_pin.id();
        self.registry.unregister(pin, event);
    }

    fn dispatch(&mut self, pin: u32, event: GpioEvent) -> (r: Vec<HandlerId>) {
        self.registry.dispatch(pin, event)
    }
}

} // verus!

verus! {

/// A pin that has been acquired cannot be acquired again until it is
/// released.
pub proof fn lemma_acquire_exclusive(held: Set<u32>, id: u32)
    ensures
        acquire(held, id) is Some ==> acquire(acquire(held, id)->Some_0, id) is None,
        acquire(held, id) is None ==> held.contains(id),
{
}

/// Releasing a pin that is not held fails; acquiring and then releasing it
/// succeeds, restores the set of held pins, and leaves the pin free to be
/// acquired again.
pub proof fn lemma_release_symmetry(held: Set<u32>, id: u32)
    requires
        !held.contains(id),
    ensures
        release(held, id) is None,
        acquire(held, id) is Some,
        release(acquire(held, id)->Some_0, id) == Some(held),
        acquire(release(acquire(held, id)->Some_0, id)->Some_0, id) is Some,
{
    assert(held.insert(id).remove(id) =~= held);
}

} // verus!
