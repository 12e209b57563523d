//! Decisions around the UART sensor link.
use vstd::prelude::*;

verus! {

/// The driver's error code for a timeout (`ESP_ERR_TIMEOUT`).
pub const ESP_ERR_TIMEOUT: i32 = 0x107;

/// Size of the buffer that one UART read fills at most.
pub const UART_READ_BUFFER_LEN: usize = 128;

/// How long one UART read waits, in milliseconds.
pub const UART_READ_TIMEOUT_MS: u32 = 1000;

/// The number of scheduler ticks in `timeout_ms` milliseconds at
/// `tick_rate_hz` ticks per second, rounded down.
pub fn read_timeout_ticks(timeout_ms: u32, tick_rate_hz: u32) -> (ticks: u32)
    requires
        timeout_ms * tick_rate_hz <= u32::MAX,
    ensures
        ticks == (timeout_ms * tick_rate_hz) / 1000,
{
    timeout_ms * tick_rate_hz / 1000
}

/// The outcome of a UART read whose driver call answered `read` after filling
/// `buffer`: the first `n` bytes when `n > 0` were read, a timeout error when
/// nothing was, and the driver's error otherwise.
pub fn uart_read_result(read: Result<usize, i32>, buffer: &[u8]) -> (r: Result<Vec<u8>, i32>)
    requires
        read matches Ok(n) ==> n <= buffer@.len(),
    ensures
        match read {
            Ok(n) => if n > 0 {
                r matches Ok(data) && data@ == buffer@.take(n as int)
            } else {
                r == Err::<Vec<u8>, i32>(ESP_ERR_TIMEOUT)
            },
            Err(code) => r == Err::<Vec<u8>, i32>(code),
        },
{
    match read {
        Ok(n) => {
            if n > 0 {
                let mut data: Vec<u8> = Vec::new();
                let mut i: usize = 0;
                while i < n
                    invariant
                        n <= buffer@.len(),
                        i <= n,
                        data@ == buffer@.take(i as int),
                    decreases n - i,
                {
                    data.push(buffer[i]);
                    i = i + 1;
                    assert(data@ =~= buffer@.take(i as int));
                }
                Ok(data)
            } else {
                Err(ESP_ERR_TIMEOUT)
            }
        },
        Err(code) => Err(code),
    }
}

/// Whether a failed UART read deserves a log line: timeouts do not.
pub fn should_report_uart_error(code: i32) -> (r: bool)
    ensures
        r == (code != ESP_ERR_TIMEOUT),
{
    code != ESP_ERR_TIMEOUT
}

} // verus!
