use avr_firmware::gpio::{
    digital_read, digital_toggle, digital_write, get_mapping, pin_mode, Gpio, PinMode, PinState,
    Port, PortId, LED_BUILTIN,
};

fn port_of(g: &Gpio, id: PortId) -> Port {
    let idx = match id {
        PortId::A => 0,
        PortId::B => 1,
        PortId::C => 2,
        PortId::D => 3,
        PortId::E => 4,
        PortId::F => 5,
        PortId::G => 6,
        PortId::H => 7,
        PortId::J => 8,
        PortId::K => 9,
        PortId::L => 10,
    };
    g.ports[idx]
}

#[test]
fn mapping_spot_checks() {
    let cases: [(u8, PortId, u8); 12] = [
        (0, PortId::E, 0),
        (4, PortId::G, 5),
        (13, PortId::B, 7),
        (21, PortId::D, 0),
        (22, PortId::A, 0),
        (29, PortId::A, 7),
        (37, PortId::C, 0),
        (38, PortId::D, 7),
        (41, PortId::G, 0),
        (50, PortId::B, 3),
        (54, PortId::F, 0),
        (69, PortId::K, 7),
    ];
    for (pin, id, bit) in cases.iter() {
        let m = get_mapping(*pin);
        assert_eq!(m.port_id, *id, "pin {}", pin);
        assert_eq!(m.bit, *bit, "pin {}", pin);
    }
}

#[test]
fn led_builtin_is_port_b_bit_7() {
    let m = get_mapping(LED_BUILTIN);
    assert_eq!(m.port_id, PortId::B);
    assert_eq!(m.bit, 7);
}

#[test]
fn pin_mode_output_sets_direction_bit() {
    let mut g = Gpio::new();
    pin_mode(&mut g, LED_BUILTIN, PinMode::Output);
    assert_eq!(port_of(&g, PortId::B).ddr, 0x80);
    assert_eq!(port_of(&g, PortId::B).port, 0);
    // Every other port is untouched.
    assert_eq!(port_of(&g, PortId::A), Port { pin: 0, ddr: 0, port: 0 });
}

#[test]
fn pin_mode_input_clears_direction_and_pullup() {
    let mut g = Gpio::new();
    pin_mode(&mut g, 13, PinMode::InputPullup);
    assert_eq!(port_of(&g, PortId::B).ddr, 0);
    assert_eq!(port_of(&g, PortId::B).port, 0x80);
    pin_mode(&mut g, 13, PinMode::Input);
    assert_eq!(port_of(&g, PortId::B).ddr, 0);
    assert_eq!(port_of(&g, PortId::B).port, 0);
}

#[test]
fn digital_write_drives_only_the_mapped_bit() {
    let mut g = Gpio::new();
    pin_mode(&mut g, 22, PinMode::Output); // port A, bit 0
    pin_mode(&mut g, 29, PinMode::Output); // port A, bit 7
    digital_write(&mut g, 22, PinState::High);
    assert_eq!(port_of(&g, PortId::A).port, 0x01);
    digital_write(&mut g, 29, PinState::High);
    assert_eq!(port_of(&g, PortId::A).port, 0x81);
    digital_write(&mut g, 22, PinState::Low);
    assert_eq!(port_of(&g, PortId::A).port, 0x80);
}

#[test]
fn digital_toggle_flips_the_bit() {
    let mut g = Gpio::new();
    digital_toggle(&mut g, LED_BUILTIN);
    assert_eq!(port_of(&g, PortId::B).port, 0x80);
    digital_toggle(&mut g, LED_BUILTIN);
    assert_eq!(port_of(&g, PortId::B).port, 0);
}

#[test]
fn digital_read_reports_input_level() {
    let mut g = Gpio::new();
    assert_eq!(digital_read(&g, 54), PinState::Low); // port F, bit 0
    g.ports[5].pin = 0x01;
    assert_eq!(digital_read(&g, 54), PinState::High);
    assert_eq!(digital_read(&g, 55), PinState::Low);
}

#[test]
fn port_bit_operations_are_independent() {
    let mut p = Port { pin: 0, ddr: 0, port: 0 };
    p.set_pin_output(3);
    assert_eq!(p.ddr, 0x08);
    p.set_pin_output(0);
    assert_eq!(p.ddr, 0x09);
    p.set_pin_input(3);
    assert_eq!(p.ddr, 0x01);
    p.set_pin_high(7);
    p.set_pin_high(1);
    assert_eq!(p.port, 0x82);
    p.set_pin_low(7);
    assert_eq!(p.port, 0x02);
    p.toggle_pin(1);
    assert_eq!(p.port, 0);
    assert!(!p.read_pin(0));
}

#[test]
fn pin_state_bool_conversions() {
    assert_eq!(PinState::from(true), PinState::High);
    assert_eq!(PinState::from(false), PinState::Low);
    assert!(bool::from(PinState::High));
    assert!(!bool::from(PinState::Low));
}
