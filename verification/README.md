# sensor_bridge

The verified core of SensorBridge, an ESP32 firmware that forwards UART sensor
data to Bluetooth LE subscribers, blinks a status LED, and joins Wi-Fi networks
whose credentials arrive over Bluetooth.

- `src/` is the library, checked by Verus:
  - `buffers`: 32-byte SSID and 64-byte password buffers (`heapless::String`).
  - `wifi`: the station manager as a state machine; it asks for driver and
    flash steps and decides on their outcomes. `wifi_laws` proves what holds of
    whole runs and over any sequence of calls (a join that succeeds, the connected
    flag, failed steps, and that a saved join given back the
    stored values joins with them; that the flash store gives them back is the
    store's part, not proved here).
  - `commands`: the three-command queue (`heapless::spsc::Queue`) between the
    Bluetooth handlers and the Wi-Fi worker.
  - `ble`: the GATT handlers' decisions (notify control, credential writes, status
    read, UART forwarding).
  - `sensor`, `i2c`, `gpio`: UART read outcomes, the I2C bus scan, pin error
    messages and the LED blink pattern.
- `app/` is the firmware around it: ESP-IDF drivers, NimBLE, MQTT, threads.
- `tests/` runs the library on concrete values.
