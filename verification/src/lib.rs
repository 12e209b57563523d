//! SensorBridge: the decisions of an ESP32 firmware that forwards UART sensor
//! data to Bluetooth LE subscribers and joins Wi-Fi networks whose credentials
//! arrive over Bluetooth.
//!
//! Everything here is plain logic with contracts; the radio, flash, UART, I2C
//! and GPIO drivers are driven by the firmware around it, which performs the
//! steps that this library asks for and reports back what happened.
pub mod buffers;
pub mod wifi;
pub mod wifi_laws;
pub mod commands;
pub mod ble;
pub mod sensor;
pub mod i2c;
pub mod gpio;
