use gpio_hal::{Gpio, GpioError, GpioEvent, GpioPinInput, HalGpio, HalGpioPin};

fn input_pin(gpio: &mut Gpio, id: u32) -> GpioPinInput {
    match gpio.use_pin(id) {
        Ok(pin) => pin.into_input(),
        Err(e) => panic!("pin {} not handed out: {:?}", id, e),
    }
}

fn count(fired: &[u64], handler: u64) -> usize {
    fired.iter().filter(|h| **h == handler).count()
}

#[test]
fn second_acquire_of_same_pin_is_refused() {
    let mut gpio = Gpio::new(vec![]);
    assert!(gpio.use_pin(5).is_ok());
    assert_eq!(gpio.use_pin(5).err(), Some(GpioError::AlreadyInUse(5)));
}

#[test]
fn acquire_hands_out_the_requested_id() {
    let mut gpio = Gpio::new(vec![]);
    let pin = gpio.use_pin(17).ok().unwrap();
    assert_eq!(pin.id(), 17);
}

#[test]
fn different_pins_are_independent() {
    let mut gpio = Gpio::new(vec![]);
    assert!(gpio.use_pin(1).is_ok());
    assert!(gpio.use_pin(2).is_ok());
    assert_eq!(gpio.use_pin(1).err(), Some(GpioError::AlreadyInUse(1)));
}

#[test]
fn release_of_pin_never_acquired_is_refused() {
    let mut gpio = Gpio::new(vec![]);
    assert_eq!(gpio.release_pin(9), Err(GpioError::NotInUse(9)));
}

#[test]
fn released_pin_can_be_acquired_again() {
    let mut gpio = Gpio::new(vec![]);
    assert!(gpio.use_pin(5).is_ok());
    assert_eq!(gpio.release_pin(5), Ok(()));
    assert!(gpio.use_pin(5).is_ok());
}

#[test]
fn release_twice_is_refused() {
    let mut gpio = Gpio::new(vec![]);
    assert!(gpio.use_pin(4).is_ok());
    assert_eq!(gpio.release_pin(4), Ok(()));
    assert_eq!(gpio.release_pin(4), Err(GpioError::NotInUse(4)));
}

#[test]
fn largest_pin_id_is_handled() {
    let mut gpio = Gpio::new(vec![]);
    assert!(gpio.use_pin(u32::MAX).is_ok());
    assert_eq!(gpio.use_pin(u32::MAX).err(), Some(GpioError::AlreadyInUse(u32::MAX)));
    assert_eq!(gpio.release_pin(u32::MAX), Ok(()));
}

#[test]
fn always_handler_fires_on_every_dispatch() {
    let mut gpio = Gpio::new(vec![]);
    let pin = input_pin(&mut gpio, 3);
    gpio.register_event_handler_always(&pin, GpioEvent::RisingEdge, 1);
    let first = gpio.dispatch(3, GpioEvent::RisingEdge);
    let second = gpio.dispatch(3, GpioEvent::RisingEdge);
    assert_eq!(count(&first, 1) + count(&second, 1), 2);
    assert_eq!(first, vec![1]);
    assert_eq!(second, vec![1]);
}

#[test]
fn onetime_handler_fires_once() {
    let mut gpio = Gpio::new(vec![]);
    let pin = input_pin(&mut gpio, 3);
    gpio.register_event_handler_onetime(&pin, GpioEvent::RisingEdge, 2);
    let first = gpio.dispatch(3, GpioEvent::RisingEdge);
    let second = gpio.dispatch(3, GpioEvent::RisingEdge);
    assert_eq!(count(&first, 2) + count(&second, 2), 1);
    assert_eq!(first, vec![2]);
    assert!(second.is_empty());
    assert!(gpio.dispatch(3, GpioEvent::RisingEdge).is_empty());
}

#[test]
fn handlers_fire_in_registration_order() {
    let mut gpio = Gpio::new(vec![]);
    let pin = input_pin(&mut gpio, 6);
    gpio.register_event_handler_always(&pin, GpioEvent::High, 30);
    gpio.register_event_handler_onetime(&pin, GpioEvent::High, 10);
    gpio.register_event_handler_always(&pin, GpioEvent::High, 20);
    assert_eq!(gpio.dispatch(6, GpioEvent::High), vec![30, 10, 20]);
    assert_eq!(gpio.dispatch(6, GpioEvent::High), vec![30, 20]);
}

#[test]
fn same_handler_registered_twice_fires_twice() {
    let mut gpio = Gpio::new(vec![]);
    let pin = input_pin(&mut gpio, 8);
    gpio.register_event_handler_always(&pin, GpioEvent::Low, 4);
    gpio.register_event_handler_always(&pin, GpioEvent::Low, 4);
    assert_eq!(gpio.dispatch(8, GpioEvent::Low), vec![4, 4]);
}

#[test]
fn unregister_removes_both_modes() {
    let mut gpio = Gpio::new(vec![]);
    let pin = input_pin(&mut gpio, 7);
    gpio.register_event_handler_always(&pin, GpioEvent::FallingEdge, 1);
    gpio.register_event_handler_onetime(&pin, GpioEvent::FallingEdge, 2);
    gpio.unregister_event_handler(&pin, GpioEvent::FallingEdge);
    assert!(gpio.dispatch(7, GpioEvent::FallingEdge).is_empty());
}

#[test]
fn unregister_keeps_other_keys() {
    let mut gpio = Gpio::new(vec![]);
    let pin = input_pin(&mut gpio, 7);
    gpio.register_event_handler_always(&pin, GpioEvent::FallingEdge, 1);
    gpio.register_event_handler_always(&pin, GpioEvent::RisingEdge, 2);
    gpio.unregister_event_handler(&pin, GpioEvent::FallingEdge);
    assert_eq!(gpio.dispatch(7, GpioEvent::RisingEdge), vec![2]);
}

#[test]
fn unregister_without_registrations_is_a_no_op() {
    let mut gpio = Gpio::new(vec![]);
    let pin = input_pin(&mut gpio, 1);
    gpio.unregister_event_handler(&pin, GpioEvent::Low);
    assert!(gpio.dispatch(1, GpioEvent::Low).is_empty());
}

#[test]
fn dispatch_matches_the_exact_key_only() {
    let mut gpio = Gpio::new(vec![]);
    let pin = input_pin(&mut gpio, 2);
    gpio.register_event_handler_always(&pin, GpioEvent::AsyncRisingEdge, 1);
    gpio.register_event_handler_always(&pin, GpioEvent::BothEdges, 2);
    gpio.register_event_handler_onetime(&pin, GpioEvent::AsyncRisingEdge, 3);
    assert!(gpio.dispatch(2, GpioEvent::RisingEdge).is_empty());
    assert_eq!(gpio.dispatch(2, GpioEvent::AsyncRisingEdge), vec![1, 3]);
    assert_eq!(gpio.dispatch(2, GpioEvent::BothEdges), vec![2]);
}

#[test]
fn dispatch_on_another_pin_fires_nothing() {
    let mut gpio = Gpio::new(vec![]);
    let pin = input_pin(&mut gpio, 2);
    gpio.register_event_handler_onetime(&pin, GpioEvent::RisingEdge, 1);
    assert!(gpio.dispatch(3, GpioEvent::RisingEdge).is_empty());
    assert_eq!(gpio.dispatch(2, GpioEvent::RisingEdge), vec![1]);
}

#[test]
fn release_clears_handlers_of_the_pin() {
    let mut gpio = Gpio::new(vec![]);
    let pin = input_pin(&mut gpio, 4);
    let other = input_pin(&mut gpio, 5);
    gpio.register_event_handler_always(&pin, GpioEvent::RisingEdge, 1);
    gpio.register_event_handler_always(&other, GpioEvent::RisingEdge, 2);
    assert_eq!(gpio.release_pin(4), Ok(()));
    assert!(gpio.dispatch(4, GpioEvent::RisingEdge).is_empty());
    assert_eq!(gpio.dispatch(5, GpioEvent::RisingEdge), vec![2]);
}

#[test]
fn failed_release_keeps_handlers() {
    let mut gpio = Gpio::new(vec![]);
    let pin = input_pin(&mut gpio, 4);
    gpio.register_event_handler_always(&pin, GpioEvent::Low, 1);
    assert_eq!(gpio.release_pin(6), Err(GpioError::NotInUse(6)));
    assert_eq!(gpio.dispatch(4, GpioEvent::Low), vec![1]);
}

#[test]
fn every_event_kind_is_its_own_key() {
    let events = [
        GpioEvent::RisingEdge,
        GpioEvent::FallingEdge,
        GpioEvent::BothEdges,
        GpioEvent::High,
        GpioEvent::Low,
        GpioEvent::AsyncRisingEdge,
        GpioEvent::AsyncFallingEdge,
        GpioEvent::AsyncBothEdges,
    ];
    let mut gpio = Gpio::new(vec![]);
    let pin = input_pin(&mut gpio, 0);
    for (i, e) in events.iter().enumerate() {
        gpio.register_event_handler_always(&pin, *e, i as u64);
    }
    for (i, e) in events.iter().enumerate() {
        assert_eq!(gpio.dispatch(0, *e), vec![i as u64]);
    }
}
