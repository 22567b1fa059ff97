use kernel_core::serial::{SerialPort, _print};

#[test]
fn test_fresh_port_untouched() {
    let port = SerialPort::new();
    assert!(!port.is_initialized());
    assert!(port.transmitted().is_empty());
}

#[test]
fn test_write_initializes_and_transmits() {
    let mut port = SerialPort::new();
    port.write_string("hello");
    assert!(port.is_initialized());
    assert_eq!(b"hello".to_vec(), *port.transmitted());
}

#[test]
fn test_writes_accumulate_in_order() {
    let mut port = SerialPort::new();
    port.write_string("one ");
    port.write_string("two");
    assert_eq!(b"one two".to_vec(), *port.transmitted());
}

#[test]
fn test_print_appends() {
    let mut port = SerialPort::new();
    _print(&mut port, "diag\n");
    assert_eq!(b"diag\n".to_vec(), *port.transmitted());
}
