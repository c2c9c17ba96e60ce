use gpio_hal::{
    Gpio, GpioError, GpioPin, HalGpio, HalGpioPin, HalGpioPinAltFunc, HalGpioPinInput,
    HalGpioPinOutput, Pud,
};

fn pin(gpio: &mut Gpio, id: u32) -> GpioPin {
    match gpio.use_pin(id) {
        Ok(p) => p,
        Err(e) => panic!("pin {} not handed out: {:?}", id, e),
    }
}

#[test]
fn fresh_pin_has_bias_disabled() {
    let mut gpio = Gpio::new(vec![]);
    let p = pin(&mut gpio, 12);
    assert_eq!(p.id(), 12);
    assert_eq!(p.pull(), Pud::Disabled);
}

#[test]
fn input_pin_reads_its_level() {
    let mut gpio = Gpio::new(vec![]);
    let mut input = pin(&mut gpio, 3).into_input();
    assert_eq!(input.id(), 3);
    assert!(!input.is_high());
    input.sense(true);
    assert!(input.is_high());
    input.sense(false);
    assert!(!input.is_high());
}

#[test]
fn is_low_is_the_negation_of_is_high() {
    let mut gpio = Gpio::new(vec![]);
    let mut input = pin(&mut gpio, 3).into_input();
    for level in [false, true, true, false] {
        input.sense(level);
        assert_eq!(input.is_low(), !input.is_high());
        assert_eq!(input.is_low(), !level);
    }
}

#[test]
fn output_pin_drives_levels() {
    let mut gpio = Gpio::new(vec![]);
    let mut out = pin(&mut gpio, 21).into_output();
    assert_eq!(out.id(), 21);
    assert!(!out.is_set_high());
    out.high();
    assert!(out.is_set_high());
    out.low();
    assert!(!out.is_set_high());
}

#[test]
fn toggle_flips_the_driven_level() {
    let mut gpio = Gpio::new(vec![]);
    let mut out = pin(&mut gpio, 21).into_output();
    out.toggle();
    assert!(out.is_set_high());
    out.toggle();
    assert!(!out.is_set_high());
}

#[test]
fn pud_settings_change_bias_only() {
    let mut gpio = Gpio::new(vec![]);
    let mut p = pin(&mut gpio, 9);
    p.enable_pud_up();
    assert_eq!(p.pull(), Pud::PullUp);
    let mut input = p.into_input();
    assert_eq!(input.pull(), Pud::PullUp);
    input.sense(true);
    input.enable_pud_down();
    assert_eq!(input.pull(), Pud::PullDown);
    assert!(input.is_high());
    input.disable_pud();
    assert_eq!(input.pull(), Pud::Disabled);
    assert_eq!(input.id(), 9);
}

#[test]
fn output_bias_keeps_driven_level() {
    let mut gpio = Gpio::new(vec![]);
    let mut out = pin(&mut gpio, 2).into_output();
    out.high();
    out.enable_pud_down();
    assert_eq!(out.pull(), Pud::PullDown);
    assert!(out.is_set_high());
}

#[test]
fn supported_alt_function_is_selected() {
    let mut gpio = Gpio::new(vec![(14, 0), (14, 5), (15, 0)]);
    let mut alt = match pin(&mut gpio, 14).into_altfunc(5) {
        Ok(a) => a,
        Err(e) => panic!("alternate function refused: {:?}", e),
    };
    assert_eq!(alt.id(), 14);
    assert_eq!(alt.function(), 5);
    alt.enable_pud_up();
    assert_eq!(alt.pull(), Pud::PullUp);
}

#[test]
fn unsupported_alt_function_is_refused() {
    let mut gpio = Gpio::new(vec![(14, 0), (15, 3)]);
    let r = pin(&mut gpio, 14).into_altfunc(3);
    assert_eq!(r.err(), Some(GpioError::UnsupportedAltFunction { pin: 14, function: 3 }));
}

#[test]
fn alt_function_of_pin_without_table_entry_is_refused() {
    let mut gpio = Gpio::new(vec![(1, 2)]);
    let r = pin(&mut gpio, 0).into_altfunc(2);
    assert_eq!(r.err(), Some(GpioError::UnsupportedAltFunction { pin: 0, function: 2 }));
}

#[test]
fn pin_stays_held_after_refused_alt_function() {
    let mut gpio = Gpio::new(vec![]);
    assert!(pin(&mut gpio, 10).into_altfunc(1).is_err());
    assert_eq!(gpio.use_pin(10).err(), Some(GpioError::AlreadyInUse(10)));
    assert_eq!(gpio.release_pin(10), Ok(()));
}
