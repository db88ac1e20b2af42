use std::cell::Cell;
use yaos::lazy::{Lazy, LazyInitializer};
use yaos::port::PortWrite;
use yaos::serial::{SerialIsFaulty, SerialPort, COM1_ADDRESS};

fn write(port: u16, value: u8) -> PortWrite {
    PortWrite { port, value }
}

#[test]
fn init_writes_set_up_the_chip_and_send_the_probe() {
    assert_eq!(COM1_ADDRESS, 0x3f8);
    assert_eq!(
        SerialPort::init_writes(0x3f8),
        vec![
            write(0x3f9, 0x00),
            write(0x3fb, 0x80),
            write(0x3f8, 0x03),
            write(0x3f9, 0x00),
            write(0x3fb, 0x03),
            write(0x3fa, 0xc7),
            write(0x3fc, 0x0b),
            write(0x3fc, 0x1e),
            write(0x3f8, 0xae),
        ]
    );
}

#[test]
fn chip_that_echoes_the_probe_is_accepted() {
    let serial = SerialPort::create_and_init(0x3f8, 0xae).unwrap();
    assert_eq!(serial.normal_mode(), write(0x3fc, 0x0f));
    assert_eq!(serial.status_port(), 0x3fd);
}

#[test]
fn chip_that_echoes_anything_else_is_faulty() {
    assert_eq!(SerialPort::create_and_init(0x3f8, 0xaf), Err(SerialIsFaulty));
    assert_eq!(SerialPort::create_and_init(0x3f8, 0x00), Err(SerialIsFaulty));
}

#[test]
fn transmit_empty_is_bit_5_of_the_status() {
    assert_eq!(SerialPort::is_transmit_empty(0x20), 0x20);
    assert_eq!(SerialPort::is_transmit_empty(0xdf), 0);
    assert_eq!(SerialPort::is_transmit_empty(0xff), 0x20);
}

#[test]
fn write_string_sends_each_character() {
    let serial = SerialPort::create_and_init(0x3f8, 0xae).unwrap();
    assert_eq!(serial.write_char('A'), write(0x3f8, 0x41));
    assert_eq!(
        serial.write_string("ok\n"),
        vec![write(0x3f8, b'o'), write(0x3f8, b'k'), write(0x3f8, b'\n')]
    );
    assert_eq!(serial.write_string(""), vec![]);
    // A character beyond one byte is sent as the low byte of its number.
    assert_eq!(serial.write_string("\u{20ac}"), vec![write(0x3f8, 0xac)]);
}

#[test]
fn lazy_value_is_made_once() {
    let runs = Cell::new(0);
    let mut lazy = Lazy::new(|| {
        runs.set(runs.get() + 1);
        42
    });
    assert!(!lazy.is_initialized());
    assert_eq!(runs.get(), 0);
    assert_eq!(*lazy.get(), 42);
    assert!(lazy.is_initialized());
    assert_eq!(*lazy.get(), 42);
    assert_eq!(*lazy.get_static_ref(), 42);
    assert_eq!(runs.get(), 1);
    let mut named: LazyInitializer<&str, _> = LazyInitializer::new(|| "made");
    assert_eq!(*named.get(), "made");
}
