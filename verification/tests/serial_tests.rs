use avr_firmware::ring::{TxRing, TX_BUFFER_SIZE};
use avr_firmware::serial::{baud_divisor, Serial};

#[test]
fn ring_starts_empty() {
    let mut r = TxRing::new();
    assert_eq!(r.dequeue(), None);
}

#[test]
fn ring_round_trip_in_order() {
    let mut r = TxRing::new();
    let data = b"hello, world";
    for &b in data.iter() {
        assert!(r.enqueue(b));
    }
    let mut out = Vec::new();
    while let Some(b) = r.dequeue() {
        out.push(b);
    }
    assert_eq!(out, data.to_vec());
    assert_eq!(r.dequeue(), None);
}

#[test]
fn ring_capacity_is_size_minus_one() {
    let mut r = TxRing::new();
    for i in 0..(TX_BUFFER_SIZE - 1) {
        assert!(r.enqueue(i as u8), "refused byte {} with space left", i);
    }
    assert!(!r.enqueue(0xAA), "accepted a byte into a full ring");
    // The refused byte left the ring untouched: draining yields exactly
    // the accepted bytes, in order.
    for i in 0..(TX_BUFFER_SIZE - 1) {
        assert_eq!(r.dequeue(), Some(i as u8));
    }
    assert_eq!(r.dequeue(), None);
}

#[test]
fn ring_wraps_indices_and_keeps_order() {
    let mut r = TxRing::new();
    // Move head and tail far enough that the next run wraps past the end
    // of the buffer.
    for i in 0..100u8 {
        assert!(r.enqueue(i));
    }
    for i in 0..100u8 {
        assert_eq!(r.dequeue(), Some(i));
    }
    for i in 100..200u8 {
        assert!(r.enqueue(i));
    }
    for i in 100..200u8 {
        assert_eq!(r.dequeue(), Some(i));
    }
    assert_eq!(r.dequeue(), None);
}

#[test]
fn write_str_then_drain_round_trip() {
    let mut s = Serial::new();
    assert!(!s.drain_enabled);
    s.write_str(b"hi");
    assert!(s.drain_enabled);
    assert_eq!(s.drain(), Some(b'h'));
    assert!(s.drain_enabled);
    assert_eq!(s.drain(), Some(b'i'));
    assert!(s.drain_enabled);
    // Emptied: the handler disables its own interrupt to stop the storm.
    assert_eq!(s.drain(), None);
    assert!(!s.drain_enabled);
}

#[test]
fn overflowing_write_keeps_exactly_the_free_space() {
    let mut s = Serial::new();
    let long: Vec<u8> = (0..200u8).collect();
    s.write_str(&long);
    let mut out = Vec::new();
    while let Some(b) = s.drain() {
        out.push(b);
    }
    // Exactly the first capacity-minus-one bytes were retained; the rest
    // were dropped with no error surfaced.
    assert_eq!(out.len(), TX_BUFFER_SIZE - 1);
    assert_eq!(out, (0..(TX_BUFFER_SIZE - 1) as u8).collect::<Vec<u8>>());
}

#[test]
fn write_to_full_ring_drops_everything_silently() {
    let mut s = Serial::new();
    let fill: Vec<u8> = (0..(TX_BUFFER_SIZE - 1) as u8).collect();
    s.write_str(&fill);
    s.write_str(b"dropped");
    let mut out = Vec::new();
    while let Some(b) = s.drain() {
        out.push(b);
    }
    assert_eq!(out, fill);
}

#[test]
fn partial_overflow_keeps_prefix() {
    let mut s = Serial::new();
    let almost: Vec<u8> = vec![b'x'; TX_BUFFER_SIZE - 4];
    s.write_str(&almost);
    s.write_str(b"abcdef");
    let mut out = Vec::new();
    while let Some(b) = s.drain() {
        out.push(b);
    }
    let mut expected = almost.clone();
    expected.extend_from_slice(b"abc");
    assert_eq!(out, expected);
}

#[test]
fn echo_sends_back_received_byte() {
    let mut s = Serial::new();
    s.serial_echo(Some(b'x'));
    assert!(s.drain_enabled);
    assert_eq!(s.drain(), Some(b'x'));
    assert_eq!(s.drain(), None);
}

#[test]
fn echo_sends_back_any_byte_value() {
    let mut s = Serial::new();
    s.serial_echo(Some(0x90));
    assert!(s.drain_enabled);
    assert_eq!(s.drain(), Some(0x90));
    s.serial_echo(Some(0xFF));
    assert_eq!(s.drain(), Some(0xFF));
    assert_eq!(s.drain(), None);
}

#[test]
fn echo_without_input_does_nothing() {
    let mut s = Serial::new();
    s.serial_echo(None);
    assert!(!s.drain_enabled);
    assert_eq!(s.drain(), None);
}

#[test]
fn write_never_moves_the_consumer_index() {
    let mut s = Serial::new();
    s.write_str(b"abc");
    assert_eq!(s.drain(), Some(b'a'));
    let tail_before = s.tx.tail;
    s.write_str(b"defgh");
    s.serial_echo(Some(b'i'));
    assert_eq!(s.tx.tail, tail_before);
    assert_eq!(s.drain(), Some(b'b'));
}

#[test]
fn baud_divisor_common_rates() {
    // 16 MHz, double-speed mode: divisor = 16e6 / (8 * baud) - 1.
    assert_eq!(baud_divisor(115_200), 16);
    assert_eq!(baud_divisor(9_600), 207);
    assert_eq!(baud_divisor(19_200), 103);
    assert_eq!(baud_divisor(57_600), 33);
}

#[test]
fn baud_divisor_extremes() {
    assert_eq!(baud_divisor(31), 64515);
    assert_eq!(baud_divisor(2_000_000), 0);
}
