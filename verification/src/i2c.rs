//! The I2C bus scan: every 7-bit address from 1 to 126 is probed in turn with
//! an empty write; an acknowledged write means a device answers there.
use vstd::prelude::*;

verus! {

/// The driver's generic failure code (`ESP_FAIL`).
pub const ESP_FAIL: i32 = -1;

/// The first address probed.
pub const FIRST_ADDRESS: u8 = 1;

/// One past the last address probed.
pub const END_ADDRESS: u8 = 127;

/// What a probe result is worth saying.
#[derive(Debug, Clone, Copy, PartialEq, Eq, Structural)]
pub enum ProbeNote {
    /// A device acknowledged at this address.
    Found(u8),
    /// The probe at this address failed with an unknown error.
    UnknownError(u8),
    /// Nothing to say.
    Silent,
}

/// A scan in progress.
pub struct I2cScan {
    next: u8,
    found: u32,
}

/// A scan as a value: the next address to probe and the devices found so far.
pub struct ScanModel {
    pub next: nat,
    pub found: nat,
}

impl I2cScan {
    #[verifier::type_invariant]
    spec fn counts_agree(self) -> bool {
        &&& FIRST_ADDRESS <= self.next <= END_ADDRESS
        &&& self.found < self.next
    }
}

impl View for I2cScan {
    type V = ScanModel;

    closed spec fn view(&self) -> ScanModel {
        ScanModel { next: self.next as nat, found: self.found as nat }
    }
}

/// The scan after probing the address `m.next` with outcome `result`, and
/// what to say about it.
pub open spec fn probe_step(m: ScanModel, result: Result<(), i32>) -> (ScanModel, ProbeNote) {
    let addr = m.next as u8;
    match result {
        Ok(()) => (ScanModel { next: m.next + 1, found: m.found + 1 }, ProbeNote::Found(addr)),
        Err(code) => (
            ScanModel { next: m.next + 1, found: m.found },
            if code == ESP_FAIL {
                ProbeNote::UnknownError(addr)
            } else {
                ProbeNote::Silent
            },
        ),
    }
}

/// The closing line of a scan that found `found` devices.
pub open spec fn scan_summary(found: nat) -> Seq<char> {
    if found == 0 {
        "No I2C devices found\n"@
    } else {
        "done\n"@
    }
}

impl I2cScan {
    /// A scan that has probed nothing yet.
    pub fn new() -> (r: Self)
        ensures
            r@ == (ScanModel { next: FIRST_ADDRESS as nat, found: 0 }),
    {
        I2cScan { next: FIRST_ADDRESS, found: 0 }
    }

    /// The address to probe next, or `None` when every address was probed.
    pub fn next_address(&self) -> (r: Option<u8>)
        ensures
            self@.next < END_ADDRESS ==> r == Some(self@.next as u8),
            self@.next >= END_ADDRESS ==> r is None,
    {
        proof {
            use_type_invariant(self);
        }
        if self.next < END_ADDRESS {
            Some(self.next)
        } else {
            None
        }
    }

    /// Takes the outcome of the probe at the next address.
    pub fn record(&mut self, result: Result<(), i32>) -> (note: ProbeNote)
        requires
            old(self)@.next < END_ADDRESS,
        ensures
            (final(self)@, note) == probe_step(old(self)@, result),
    {
        proof {
            use_type_invariant(&*self);
        }
        let addr = self.next;
        self.next = self.next + 1;
        match result {
            Ok(()) => {
                self.found = self.found + 1;
                ProbeNote::Found(addr)
            },
            Err(code) => if code == ESP_FAIL {
                ProbeNote::UnknownError(addr)
            } else {
                ProbeNote::Silent
            },
        }
    }

    /// Whether every address was probed.
    pub fn is_done(&self) -> (r: bool)
        ensures
            r == (self@.next >= END_ADDRESS),
    {
        self.next >= END_ADDRESS
    }

    /// The number of devices found so far.
    pub fn found(&self) -> (r: u32)
        ensures
            r == self@.found,
    {
        self.found
    }

    /// The closing line: whether anything was found.
    pub fn summary(&self) -> (r: &'static str)
        ensures
            r@ == scan_summary(self@.found),
            self@.found == 0 ==> r@ == "No I2C devices found\n"@,
            self@.found > 0 ==> r@ == "done\n"@,
    {
        if self.found == 0 {
            "No I2C devices found\n"
        } else {
            "done\n"
        }
    }
}

/// The number of acknowledged probes among `results`.
pub open spec fn count_found(results: Seq<Result<(), i32>>) -> nat
    decreases results.len(),
{
    if results.len() == 0 {
        0
    } else {
        count_found(results.drop_last()) + if results.last() is Ok {
            1nat
        } else {
            0nat
        }
    }
}

/// A fresh scan after probing in turn with outcomes `results`.
pub open spec fn scan_over(results: Seq<Result<(), i32>>) -> ScanModel
    decreases results.len(),
{
    if results.len() == 0 {
        ScanModel { next: FIRST_ADDRESS as nat, found: 0 }
    } else {
        probe_step(scan_over(results.drop_last()), results.last()).0
    }
}

/// The note of the probe at position `i` of a scan with outcomes `results`.
pub open spec fn note_at(results: Seq<Result<(), i32>>, i: int) -> ProbeNote {
    probe_step(scan_over(results.take(i)), results[i]).1
}

/// A scan probes the addresses in increasing order from the first, one per
/// outcome, and counts exactly the acknowledged probes; the probe at position
/// `i` is the one at address `1 + i`. After 126 outcomes every address was
/// probed.
pub proof fn scan_counts_acknowledgements(results: Seq<Result<(), i32>>)
    ensures
        scan_over(results) == (ScanModel {
            next: (FIRST_ADDRESS + results.len()) as nat,
            found: count_found(results),
        }),
        forall|i: int|
            0 <= i < results.len() ==> #[trigger] note_at(results, i) == match results[i] {
                Ok(()) => ProbeNote::Found((1 + i) as u8),
                Err(code) => if code == ESP_FAIL {
                    ProbeNote::UnknownError((1 + i) as u8)
                } else {
                    ProbeNote::Silent
                },
            },
        results.len() == 126 ==> scan_over(results).next == END_ADDRESS,
    decreases results.len(),
{
    if results.len() > 0 {
        scan_counts_acknowledgements(results.drop_last());
        assert forall|i: int| 0 <= i < results.len() implies #[trigger] note_at(results, i)
            == match results[i] {
            Ok(()) => ProbeNote::Found((1 + i) as u8),
            Err(code) => if code == ESP_FAIL {
                ProbeNote::UnknownError((1 + i) as u8)
            } else {
                ProbeNote::Silent
            },
        } by {
            let prefix = results.take(i);
            scan_counts_acknowledgements(prefix);
        }
    }
}

/// The bus address of the sensor whose identity register is read at start-up.
pub const SENSOR_ADDRESS: u8 = 0x68;

/// The register read from the sensor at start-up.
pub const IDENTITY_REGISTER: u8 = 0x75;

/// How long the register read may take, in scheduler ticks.
pub const REGISTER_READ_TIMEOUT_TICKS: u32 = 100;

/// The message when the I2C driver cannot be created.
pub fn driver_failure_message() -> (msg: &'static str)
    ensures
        msg@ == "Failed to create I2C driver"@,
{
    "Failed to create I2C driver"
}

/// The outcome of reading one register byte, whose transfer answered
/// `transfer` after filling `buffer`: the byte, or the read's message
/// whatever the driver's error.
pub fn register_read_result(transfer: Result<(), i32>, buffer: &[u8; 1]) -> (r: Result<
    u8,
    &'static str,
>)
    ensures
        transfer is Ok ==> r == Ok::<u8, &'static str>(buffer@[0]),
        transfer is Err ==> (r matches Err(msg) && msg@ == "I2C read failed"@),
{
    match transfer {
        Ok(()) => Ok(buffer[0]),
        Err(_) => Err("I2C read failed"),
    }
}

/// Some probe among `results` was acknowledged exactly when the count of
/// acknowledged probes is positive.
proof fn found_some_iff_acknowledged(results: Seq<Result<(), i32>>)
    ensures
        count_found(results) > 0 <==> exists|i: int| 0 <= i < results.len() && #[trigger] results[i] is Ok,
    decreases results.len(),
{
    if results.len() > 0 {
        let prefix = results.drop_last();
        found_some_iff_acknowledged(prefix);
        if exists|i: int| 0 <= i < prefix.len() && #[trigger] prefix[i] is Ok {
            let i = choose|i: int| 0 <= i < prefix.len() && #[trigger] prefix[i] is Ok;
            assert(results[i] == prefix[i]);
        }
        if exists|i: int| 0 <= i < results.len() && #[trigger] results[i] is Ok {
            let i = choose|i: int| 0 <= i < results.len() && #[trigger] results[i] is Ok;
            if i < prefix.len() {
                assert(prefix[i] == results[i]);
            }
        }
    }
}

/// A scan closes with "done" when some device acknowledged and with "No I2C
/// devices found" when none did; in particular a count of one device or more
/// always closes with "done".
pub proof fn summary_reports_any_device(results: Seq<Result<(), i32>>, n: nat)
    ensures
        (exists|i: int| 0 <= i < results.len() && #[trigger] results[i] is Ok)
            ==> scan_summary(scan_over(results).found) == "done\n"@,
        (forall|i: int| 0 <= i < results.len() ==> #[trigger] results[i] is Err)
            ==> scan_summary(scan_over(results).found) == "No I2C devices found\n"@,
        n > 0 ==> scan_summary(n) == "done\n"@,
        scan_summary(0) == "No I2C devices found\n"@,
{
    scan_counts_acknowledgements(results);
    found_some_iff_acknowledged(results);
}

} // verus!
