use sensor_bridge::i2c::{
    driver_failure_message, register_read_result, IDENTITY_REGISTER, SENSOR_ADDRESS,
};
use sensor_bridge::gpio::{pin_outcome, LedBlink, PinOp, BLINK_HALF_PERIOD_MS};
use sensor_bridge::i2c::{I2cScan, ProbeNote, END_ADDRESS, ESP_FAIL};
use sensor_bridge::sensor::{
    read_timeout_ticks, should_report_uart_error, uart_read_result, ESP_ERR_TIMEOUT,
    UART_READ_BUFFER_LEN, UART_READ_TIMEOUT_MS,
};

#[test]
fn uart_read_outcomes() {
    let mut buf = [0u8; UART_READ_BUFFER_LEN];
    buf[..5].copy_from_slice(b"T=21C");
    assert_eq!(uart_read_result(Ok(5), &buf), Ok(b"T=21C".to_vec()));
    assert_eq!(uart_read_result(Ok(128), &buf).unwrap().len(), 128);
    assert_eq!(uart_read_result(Ok(0), &buf), Err(ESP_ERR_TIMEOUT));
    assert_eq!(uart_read_result(Err(-1), &buf), Err(-1));
    assert_eq!(ESP_ERR_TIMEOUT, 0x107);
}

#[test]
fn uart_error_reporting() {
    assert!(!should_report_uart_error(ESP_ERR_TIMEOUT));
    assert!(should_report_uart_error(-1));
    assert!(should_report_uart_error(0x102));
}

#[test]
fn timeout_ticks() {
    assert_eq!(read_timeout_ticks(UART_READ_TIMEOUT_MS, 100), 100);
    assert_eq!(read_timeout_ticks(1000, 1000), 1000);
    assert_eq!(read_timeout_ticks(1500, 100), 150);
    assert_eq!(read_timeout_ticks(5, 100), 0);
}

#[test]
fn scan_visits_every_address_once() {
    let mut scan = I2cScan::new();
    let mut visited = Vec::new();
    let mut notes = Vec::new();
    while let Some(addr) = scan.next_address() {
        visited.push(addr);
        let result = match addr {
            0x3c | 0x68 => Ok(()),
            0x50 => Err(ESP_FAIL),
            _ => Err(0x107),
        };
        let note = scan.record(result);
        if note != ProbeNote::Silent {
            notes.push(note);
        }
    }
    assert!(scan.is_done());
    assert_eq!(visited, (1u8..END_ADDRESS).collect::<Vec<u8>>());
    assert_eq!(
        notes,
        vec![ProbeNote::Found(0x3c), ProbeNote::UnknownError(0x50), ProbeNote::Found(0x68)]
    );
    assert_eq!(scan.found(), 2);
    assert_eq!(scan.summary(), "done\n");
}

#[test]
fn empty_scan_says_nothing_found() {
    let mut scan = I2cScan::new();
    while scan.next_address().is_some() {
        assert_eq!(scan.record(Err(0x107)), ProbeNote::Silent);
    }
    assert_eq!(scan.found(), 0);
    assert_eq!(scan.summary(), "No I2C devices found\n");
}

#[test]
fn pin_failures_have_messages() {
    assert_eq!(pin_outcome(PinOp::SetHigh, Ok(())), Ok(()));
    assert_eq!(pin_outcome(PinOp::Init, Err(-1)), Err("Failed to initialize output"));
    assert_eq!(pin_outcome(PinOp::SetHigh, Err(5)), Err("Failed to set high"));
    assert_eq!(pin_outcome(PinOp::SetLow, Err(5)), Err("Failed to set low"));
    assert_eq!(pin_outcome(PinOp::Toggle, Err(5)), Err("Failed to toggle"));
}

#[test]
fn led_alternates_every_half_period() {
    let mut led = LedBlink::new();
    assert_eq!(led.next_phase(), (true, BLINK_HALF_PERIOD_MS));
    assert_eq!(led.next_phase(), (false, 500));
    assert_eq!(led.next_phase(), (true, 500));
}

#[test]
fn register_read_outcomes() {
    assert_eq!(SENSOR_ADDRESS, 0x68);
    assert_eq!(IDENTITY_REGISTER, 0x75);
    assert_eq!(register_read_result(Ok(()), &[0x71]), Ok(0x71));
    assert_eq!(register_read_result(Err(-1), &[0x71]), Err("I2C read failed"));
    assert_eq!(driver_failure_message(), "Failed to create I2C driver");
}
