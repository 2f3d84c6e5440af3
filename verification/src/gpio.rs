//! The GPIO layer: pin-number mapping and port register bit logic.
//!
//! Each hardware port exposes three 8-bit registers: `pin` (input levels),
//! `ddr` (data direction) and `port` (output levels / pull-up enables). A
//! `Port` value is the register image the firmware computes; writing it to
//! the memory-mapped registers, and sampling `pin` from them, is the
//! hardware layer's single read or write around each operation here.
//!
//! Board pin numbers 0..=69 are mapped to a (port, bit) pair by a fixed
//! table; asking for a pin outside that table is a programming error with
//! no recovery path, so the operations simply require a mapped pin.

use vstd::prelude::*;

verus! {

/// Direction configuration of a pin.
#[derive(Clone, Copy, Debug, PartialEq, Eq, Structural)]
pub enum PinMode {
    Input,
    Output,
    InputPullup,
}

/// Electrical level of a pin.
#[derive(Clone, Copy, Debug, PartialEq, Eq, Structural)]
pub enum PinState {
    Low,
    High,
}

impl core::convert::From<bool> for PinState {
    fn from(value: bool) -> Self {
        if value {
            PinState::High
        } else {
            PinState::Low
        }
    }
}

impl vstd::std_specs::convert::FromSpecImpl<bool> for PinState {
    open spec fn obeys_from_spec() -> bool {
        true
    }

    open spec fn from_spec(v: bool) -> Self {
        if v {
            PinState::High
        } else {
            PinState::Low
        }
    }
}

impl core::convert::From<PinState> for bool {
    fn from(value: PinState) -> Self {
        match value {
            PinState::High => true,
            PinState::Low => false,
        }
    }
}

impl vstd::std_specs::convert::FromSpecImpl<PinState> for bool {
    open spec fn obeys_from_spec() -> bool {
        true
    }

    open spec fn from_spec(v: PinState) -> Self {
        match v {
            PinState::High => true,
            PinState::Low => false,
        }
    }
}

/// Whether bit `k` of `v` is set.
pub open spec fn bit_get(v: u8, k: u8) -> bool {
    v & (1u8 << k) != 0
}

/// Setting bit `n` sets exactly that bit and leaves the others alone.
pub proof fn lemma_or_bit(v: u8, n: u8, k: u8)
    requires
        n < 8,
        k < 8,
    ensures
        bit_get(v | (1u8 << n), k) == (k == n || bit_get(v, k)),
{
    assert(((v | (1u8 << n)) & (1u8 << k) != 0) == (k == n || (v & (1u8 << k)) != 0))
        by (bit_vector)
        requires
            n < 8,
            k < 8,
    ;
}

/// Clearing bit `n` clears exactly that bit and leaves the others alone.
pub proof fn lemma_and_not_bit(v: u8, n: u8, k: u8)
    requires
        n < 8,
        k < 8,
    ensures
        bit_get(v & !(1u8 << n), k) == (k != n && bit_get(v, k)),
{
    assert(((v & !(1u8 << n)) & (1u8 << k) != 0) == (k != n && (v & (1u8 << k)) != 0))
        by (bit_vector)
        requires
            n < 8,
            k < 8,
    ;
}

/// Toggling bit `n` inverts exactly that bit and leaves the others alone.
pub proof fn lemma_xor_bit(v: u8, n: u8, k: u8)
    requires
        n < 8,
        k < 8,
    ensures
        bit_get(v ^ (1u8 << n), k) == if k == n {
            !bit_get(v, k)
        } else {
            bit_get(v, k)
        },
{
    assert(((v ^ (1u8 << n)) & (1u8 << k) != 0) == if k == n {
        !(v & (1u8 << k) != 0)
    } else {
        (v & (1u8 << k) != 0)
    })
        by (bit_vector)
        requires
            n < 8,
            k < 8,
    ;
}

/// The register image of one 8-bit port.
#[derive(Clone, Copy, Debug, PartialEq, Eq, Structural)]
pub struct Port {
    /// Input-level register (read-only on the hardware).
    pub pin: u8,
    /// Data-direction register: a set bit makes the pin an output.
    pub ddr: u8,
    /// Output-level register; on an input pin a set bit enables the
    /// pull-up resistor.
    pub port: u8,
}

pub open spec fn spec_set_output(p: Port, n: u8) -> Port {
    Port { pin: p.pin, ddr: p.ddr | (1u8 << n), port: p.port }
}

pub open spec fn spec_set_input(p: Port, n: u8) -> Port {
    Port { pin: p.pin, ddr: p.ddr & !(1u8 << n), port: p.port }
}

pub open spec fn spec_set_high(p: Port, n: u8) -> Port {
    Port { pin: p.pin, ddr: p.ddr, port: p.port | (1u8 << n) }
}

pub open spec fn spec_set_low(p: Port, n: u8) -> Port {
    Port { pin: p.pin, ddr: p.ddr, port: p.port & !(1u8 << n) }
}

pub open spec fn spec_toggle(p: Port, n: u8) -> Port {
    Port { pin: p.pin, ddr: p.ddr, port: p.port ^ (1u8 << n) }
}

/// The register image after configuring bit `n` for `mode`: output mode
/// sets the direction bit; input mode clears it and disables the pull-up;
/// pull-up input mode clears it and enables the pull-up.
pub open spec fn spec_pin_mode(p: Port, n: u8, mode: PinMode) -> Port {
    match mode {
        PinMode::Output => spec_set_output(p, n),
        PinMode::Input => spec_set_low(spec_set_input(p, n), n),
        PinMode::InputPullup => spec_set_high(spec_set_input(p, n), n),
    }
}

impl Port {
    /// Make bit `pin_number` an output: `ddr |= 1 << pin_number`.
    pub fn set_pin_output(&mut self, pin_number: u8)
        requires
            pin_number < 8,
        ensures
            *final(self) == spec_set_output(*old(self), pin_number),
            bit_get(final(self).ddr, pin_number),
            forall|k: u8|
                k < 8 && k != pin_number ==> bit_get(final(self).ddr, k) == bit_get(
                    old(self).ddr,
                    k,
                ),
    {
        self.ddr = self.ddr | (1u8 << pin_number);
        proof {
            assert forall|k: u8| k < 8 implies bit_get(self.ddr, k) == (k == pin_number
                || bit_get(old(self).ddr, k)) by {
                lemma_or_bit(old(self).ddr, pin_number, k);
            }
        }
    }

    /// Make bit `pin_number` an input: `ddr &= !(1 << pin_number)`.
    pub fn set_pin_input(&mut self, pin_number: u8)
        requires
            pin_number < 8,
        ensures
            *final(self) == spec_set_input(*old(self), pin_number),
            !bit_get(final(self).ddr, pin_number),
            forall|k: u8|
                k < 8 && k != pin_number ==> bit_get(final(self).ddr, k) == bit_get(
                    old(self).ddr,
                    k,
                ),
    {
        self.ddr = self.ddr & !(1u8 << pin_number);
        proof {
            assert forall|k: u8| k < 8 implies bit_get(self.ddr, k) == (k != pin_number
                && bit_get(old(self).ddr, k)) by {
                lemma_and_not_bit(old(self).ddr, pin_number, k);
            }
        }
    }

    /// Drive bit `pin_number` high: `port |= 1 << pin_number`.
    pub fn set_pin_high(&mut self, pin_number: u8)
        requires
            pin_number < 8,
        ensures
            *final(self) == spec_set_high(*old(self), pin_number),
            bit_get(final(self).port, pin_number),
            forall|k: u8|
                k < 8 && k != pin_number ==> bit_get(final(self).port, k) == bit_get(
                    old(self).port,
                    k,
                ),
    {
        self.port = self.port | (1u8 << pin_number);
        proof {
            assert forall|k: u8| k < 8 implies bit_get(self.port, k) == (k == pin_number
                || bit_get(old(self).port, k)) by {
                lemma_or_bit(old(self).port, pin_number, k);
            }
        }
    }

    /// Drive bit `pin_number` low: `port &= !(1 << pin_number)`.
    pub fn set_pin_low(&mut self, pin_number: u8)
        requires
            pin_number < 8,
        ensures
            *final(self) == spec_set_low(*old(self), pin_number),
            !bit_get(final(self).port, pin_number),
            forall|k: u8|
                k < 8 && k != pin_number ==> bit_get(final(self).port, k) == bit_get(
                    old(self).port,
                    k,
                ),
    {
        self.port = self.port & !(1u8 << pin_number);
        proof {
            assert forall|k: u8| k < 8 implies bit_get(self.port, k) == (k != pin_number
                && bit_get(old(self).port, k)) by {
                lemma_and_not_bit(old(self).port, pin_number, k);
            }
        }
    }

    /// Invert bit `pin_number`: `port ^= 1 << pin_number`.
    pub fn toggle_pin(&mut self, pin_number: u8)
        requires
            pin_number < 8,
        ensures
            *final(self) == spec_toggle(*old(self), pin_number),
            bit_get(final(self).port, pin_number) == !bit_get(old(self).port, pin_number),
            forall|k: u8|
                k < 8 && k != pin_number ==> bit_get(final(self).port, k) == bit_get(
                    old(self).port,
                    k,
                ),
    {
        self.port = self.port ^ (1u8 << pin_number);
        proof {
            assert forall|k: u8| k < 8 implies bit_get(self.port, k) == (if k == pin_number {
                !bit_get(old(self).port, k)
            } else {
                bit_get(old(self).port, k)
            }) by {
                lemma_xor_bit(old(self).port, pin_number, k);
            }
        }
    }

    /// Read input bit `pin_number`: true means high.
    pub fn read_pin(&self, pin_number: u8) -> (high: bool)
        requires
            pin_number < 8,
        ensures
            high == bit_get(self.pin, pin_number),
    {
        self.pin & (1u8 << pin_number) != 0
    }
}

/// The hardware ports, in the order they appear in `Gpio`.
#[derive(Clone, Copy, Debug, PartialEq, Eq, Structural)]
pub enum PortId {
    A,
    B,
    C,
    D,
    E,
    F,
    G,
    H,
    J,
    K,
    L,
}

/// Number of ports a `Gpio` holds.
pub const NUM_PORTS: usize = 11;

pub open spec fn port_index(id: PortId) -> int {
    match id {
        PortId::A => 0,
        PortId::B => 1,
        PortId::C => 2,
        PortId::D => 3,
        PortId::E => 4,
        PortId::F => 5,
        PortId::G => 6,
        PortId::H => 7,
        PortId::J => 8,
        PortId::K => 9,
        PortId::L => 10,
    }
}

pub fn port_index_of(id: PortId) -> (i: usize)
    ensures
        i == port_index(id),
        i < NUM_PORTS,
{
    match id {
        PortId::A => 0,
        PortId::B => 1,
        PortId::C => 2,
        PortId::D => 3,
        PortId::E => 4,
        PortId::F => 5,
        PortId::G => 6,
        PortId::H => 7,
        PortId::J => 8,
        PortId::K => 9,
        PortId::L => 10,
    }
}

/// Where a board pin lives: which port, and which bit of that port.
#[derive(Clone, Copy, Debug, PartialEq, Eq, Structural)]
pub struct PinMapping {
    pub port_id: PortId,
    pub bit: u8,
}

/// Number of mapped board pins: digital pins 0..=53 and analog pins
/// 54..=69.
pub const TOTAL_MAPPED_PINS: u8 = 70;

/// The built-in LED's board pin.
pub const LED_BUILTIN: u8 = 13;

/// The fixed board table from pin number to (port, bit).
pub open spec fn pin_map(pin: u8) -> PinMapping {
    if pin == 0 {
        PinMapping { port_id: PortId::E, bit: 0 }
    } else if pin == 1 {
        PinMapping { port_id: PortId::E, bit: 1 }
    } else if pin == 2 {
        PinMapping { port_id: PortId::E, bit: 4 }
    } else if pin == 3 {
        PinMapping { port_id: PortId::E, bit: 5 }
    } else if pin == 4 {
        PinMapping { port_id: PortId::G, bit: 5 }
    } else if pin == 5 {
        PinMapping { port_id: PortId::E, bit: 3 }
    } else if pin == 6 {
        PinMapping { port_id: PortId::H, bit: 3 }
    } else if pin == 7 {
        PinMapping { port_id: PortId::H, bit: 4 }
    } else if pin == 8 {
        PinMapping { port_id: PortId::H, bit: 5 }
    } else if pin == 9 {
        PinMapping { port_id: PortId::H, bit: 6 }
    } else if pin == 10 {
        PinMapping { port_id: PortId::B, bit: 4 }
    } else if pin == 11 {
        PinMapping { port_id: PortId::B, bit: 5 }
    } else if pin == 12 {
        PinMapping { port_id: PortId::B, bit: 6 }
    } else if pin == 13 {
        PinMapping { port_id: PortId::B, bit: 7 }
    } else if pin == 14 {
        PinMapping { port_id: PortId::J, bit: 1 }
    } else if pin == 15 {
        PinMapping { port_id: PortId::J, bit: 0 }
    } else if pin == 16 {
        PinMapping { port_id: PortId::H, bit: 1 }
    } else if pin == 17 {
        PinMapping { port_id: PortId::H, bit: 0 }
    } else if pin == 18 {
        PinMapping { port_id: PortId::D, bit: 3 }
    } else if pin == 19 {
        PinMapping { port_id: PortId::D, bit: 2 }
    } else if pin == 20 {
        PinMapping { port_id: PortId::D, bit: 1 }
    } else if pin == 21 {
        PinMapping { port_id: PortId::D, bit: 0 }
    } else if pin <= 29 {
        PinMapping { port_id: PortId::A, bit: (pin - 22) as u8 }
    } else if pin <= 37 {
        PinMapping { port_id: PortId::C, bit: (37 - pin) as u8 }
    } else if pin == 38 {
        PinMapping { port_id: PortId::D, bit: 7 }
    } else if pin <= 41 {
        PinMapping { port_id: PortId::G, bit: (41 - pin) as u8 }
    } else if pin <= 49 {
        PinMapping { port_id: PortId::L, bit: (49 - pin) as u8 }
    } else if pin <= 53 {
        PinMapping { port_id: PortId::B, bit: (53 - pin) as u8 }
    } else if pin <= 61 {
        PinMapping { port_id: PortId::F, bit: (pin - 54) as u8 }
    } else {
        PinMapping { port_id: PortId::K, bit: (pin - 62) as u8 }
    }
}

/// Look up the (port, bit) pair of a board pin. An unmapped pin number is
/// a fatal programming error on the target, so it is excluded here.
pub fn get_mapping(pin: u8) -> (m: PinMapping)
    requires
        pin < TOTAL_MAPPED_PINS,
    ensures
        m == pin_map(pin),
        m.bit < 8,
{
    if pin == 0 {
        PinMapping { port_id: PortId::E, bit: 0 }
    } else if pin == 1 {
        PinMapping { port_id: PortId::E, bit: 1 }
    } else if pin == 2 {
        PinMapping { port_id: PortId::E, bit: 4 }
    } else if pin == 3 {
        PinMapping { port_id: PortId::E, bit: 5 }
    } else if pin == 4 {
        PinMapping { port_id: PortId::G, bit: 5 }
    } else if pin == 5 {
        PinMapping { port_id: PortId::E, bit: 3 }
    } else if pin == 6 {
        PinMapping { port_id: PortId::H, bit: 3 }
    } else if pin == 7 {
        PinMapping { port_id: PortId::H, bit: 4 }
    } else if pin == 8 {
        PinMapping { port_id: PortId::H, bit: 5 }
    } else if pin == 9 {
        PinMapping { port_id: PortId::H, bit: 6 }
    } else if pin == 10 {
        PinMapping { port_id: PortId::B, bit: 4 }
    } else if pin == 11 {
        PinMapping { port_id: PortId::B, bit: 5 }
    } else if pin == 12 {
        PinMapping { port_id: PortId::B, bit: 6 }
    } else if pin == 13 {
        PinMapping { port_id: PortId::B, bit: 7 }
    } else if pin == 14 {
        PinMapping { port_id: PortId::J, bit: 1 }
    } else if pin == 15 {
        PinMapping { port_id: PortId::J, bit: 0 }
    } else if pin == 16 {
        PinMapping { port_id: PortId::H, bit: 1 }
    } else if pin == 17 {
        PinMapping { port_id: PortId::H, bit: 0 }
    } else if pin == 18 {
        PinMapping { port_id: PortId::D, bit: 3 }
    } else if pin == 19 {
        PinMapping { port_id: PortId::D, bit: 2 }
    } else if pin == 20 {
        PinMapping { port_id: PortId::D, bit: 1 }
    } else if pin == 21 {
        PinMapping { port_id: PortId::D, bit: 0 }
    } else if pin <= 29 {
        PinMapping { port_id: PortId::A, bit: pin - 22 }
    } else if pin <= 37 {
        PinMapping { port_id: PortId::C, bit: 37 - pin }
    } else if pin == 38 {
        PinMapping { port_id: PortId::D, bit: 7 }
    } else if pin <= 41 {
        PinMapping { port_id: PortId::G, bit: 41 - pin }
    } else if pin <= 49 {
        PinMapping { port_id: PortId::L, bit: 49 - pin }
    } else if pin <= 53 {
        PinMapping { port_id: PortId::B, bit: 53 - pin }
    } else if pin <= 61 {
        PinMapping { port_id: PortId::F, bit: pin - 54 }
    } else {
        PinMapping { port_id: PortId::K, bit: pin - 62 }
    }
}

/// The register images of all ports, indexed by `port_index`.
pub struct Gpio {
    pub ports: Vec<Port>,
}

impl Gpio {
    pub open spec fn wf(self) -> bool {
        self.ports@.len() == NUM_PORTS
    }

    /// All registers zero: every pin an input, no pull-ups, no outputs
    /// driven — the hardware reset state.
    pub fn new() -> (g: Gpio)
        ensures
            g.wf(),
            forall|i: int|
                0 <= i < NUM_PORTS ==> g.ports@[i] == (Port { pin: 0, ddr: 0, port: 0 }),
    {
        let mut ports: Vec<Port> = Vec::new();
        while ports.len() < NUM_PORTS
            invariant
                ports@.len() <= NUM_PORTS,
                forall|i: int|
                    0 <= i < ports@.len() ==> ports@[i] == (Port { pin: 0, ddr: 0, port: 0 }),
            decreases NUM_PORTS - ports@.len(),
        {
            ports.push(Port { pin: 0, ddr: 0, port: 0 });
        }
        Gpio { ports }
    }
}

/// Configure a board pin's mode. Only the mapped port changes, and it
/// changes exactly as `spec_pin_mode` says.
pub fn pin_mode(gpio: &mut Gpio, pin_number: u8, mode: PinMode)
    requires
        old(gpio).wf(),
        pin_number < TOTAL_MAPPED_PINS,
    ensures
        final(gpio).wf(),
        final(gpio).ports@ == old(gpio).ports@.update(
            port_index(pin_map(pin_number).port_id),
            spec_pin_mode(
                old(gpio).ports@[port_index(pin_map(pin_number).port_id)],
                pin_map(pin_number).bit,
                mode,
            ),
        ),
{
    let m = get_mapping(pin_number);
    let idx = port_index_of(m.port_id);
    let mut p = gpio.ports[idx];
    match mode {
        PinMode::Output => {
            p.set_pin_output(m.bit);
        },
        PinMode::Input => {
            p.set_pin_input(m.bit);
            p.set_pin_low(m.bit);
        },
        PinMode::InputPullup => {
            p.set_pin_input(m.bit);
            p.set_pin_high(m.bit);
        },
    }
    gpio.ports.set(idx, p);
}

/// Drive an output pin high or low. Only the mapped port changes, and in
/// it only the mapped bit of the output register.
pub fn digital_write(gpio: &mut Gpio, pin_number: u8, value: PinState)
    requires
        old(gpio).wf(),
        pin_number < TOTAL_MAPPED_PINS,
    ensures
        final(gpio).wf(),
        final(gpio).ports@ == old(gpio).ports@.update(
            port_index(pin_map(pin_number).port_id),
            match value {
                PinState::High => spec_set_high(
                    old(gpio).ports@[port_index(pin_map(pin_number).port_id)],
                    pin_map(pin_number).bit,
                ),
                PinState::Low => spec_set_low(
                    old(gpio).ports@[port_index(pin_map(pin_number).port_id)],
                    pin_map(pin_number).bit,
                ),
            },
        ),
        bit_get(
            final(gpio).ports@[port_index(pin_map(pin_number).port_id)].port,
            pin_map(pin_number).bit,
        ) == (value == PinState::High),
{
    let m = get_mapping(pin_number);
    let idx = port_index_of(m.port_id);
    let mut p = gpio.ports[idx];
    match value {
        PinState::High => p.set_pin_high(m.bit),
        PinState::Low => p.set_pin_low(m.bit),
    }
    gpio.ports.set(idx, p);
}

/// Read a board pin's input level.
pub fn digital_read(gpio: &Gpio, pin_number: u8) -> (state: PinState)
    requires
        gpio.wf(),
        pin_number < TOTAL_MAPPED_PINS,
    ensures
        state == (if bit_get(
            gpio.ports@[port_index(pin_map(pin_number).port_id)].pin,
            pin_map(pin_number).bit,
        ) {
            PinState::High
        } else {
            PinState::Low
        }),
{
    let m = get_mapping(pin_number);
    let idx = port_index_of(m.port_id);
    let p = gpio.ports[idx];
    if p.read_pin(m.bit) {
        PinState::High
    } else {
        PinState::Low
    }
}

/// Invert an output pin's level. Only the mapped bit of the mapped port's
/// output register changes, and it flips.
pub fn digital_toggle(gpio: &mut Gpio, pin_number: u8)
    requires
        old(gpio).wf(),
        pin_number < TOTAL_MAPPED_PINS,
    ensures
        final(gpio).wf(),
        final(gpio).ports@ == old(gpio).ports@.update(
            port_index(pin_map(pin_number).port_id),
            spec_toggle(
                old(gpio).ports@[port_index(pin_map(pin_number).port_id)],
                pin_map(pin_number).bit,
            ),
        ),
        bit_get(
            final(gpio).ports@[port_index(pin_map(pin_number).port_id)].port,
            pin_map(pin_number).bit,
        ) == !bit_get(
            old(gpio).ports@[port_index(pin_map(pin_number).port_id)].port,
            pin_map(pin_number).bit,
        ),
{
    let m = get_mapping(pin_number);
    let idx = port_index_of(m.port_id);
    let mut p = gpio.ports[idx];
    p.toggle_pin(m.bit);
    gpio.ports.set(idx, p);
}

} // verus!
