//! How the beacon is recognised and where its data comes from.

use vstd::prelude::*;

verus! {

/// A beacon advertises a name that begins with this text.
pub const DEVICE_NAME_PREFIX: &'static str = "RaceBox Micro";

/// The serial-over-GATT service of the beacon.
pub const UART_SERVICE_UUID: u128 = 0x6E400001_B5A3_F393_E0A9_E50E24DCCA9E;

/// The characteristic of that service on which the beacon sends.
pub const TX_CHAR_UUID: u128 = 0x6E400003_B5A3_F393_E0A9_E50E24DCCA9E;

/// Pause between two looks at the visible devices, for the first
/// `FAST_SCAN_CYCLES` looks.
pub const FAST_SCAN_DELAY_MS: u64 = 1_000;

/// Pause for the looks after that, up to `MEDIUM_SCAN_CYCLES` in all.
pub const MEDIUM_SCAN_DELAY_MS: u64 = 3_000;

/// Pause for every later look.
pub const SLOW_SCAN_DELAY_MS: u64 = 10_000;

pub const FAST_SCAN_CYCLES: u64 = 10;

pub const MEDIUM_SCAN_CYCLES: u64 = 20;

/// The pause before the next look, after `cycles` looks have been made:
/// short at first, then longer, then long for good.
pub open spec fn scan_delay(cycles: nat) -> nat {
    if cycles < FAST_SCAN_CYCLES {
        FAST_SCAN_DELAY_MS as nat
    } else if cycles < MEDIUM_SCAN_CYCLES {
        MEDIUM_SCAN_DELAY_MS as nat
    } else {
        SLOW_SCAN_DELAY_MS as nat
    }
}

/// Computes the pause before the next look.
pub fn scan_delay_ms(cycles: u64) -> (delay: u64)
    ensures
        delay == scan_delay(cycles as nat),
{
    if cycles < FAST_SCAN_CYCLES {
        FAST_SCAN_DELAY_MS
    } else if cycles < MEDIUM_SCAN_CYCLES {
        MEDIUM_SCAN_DELAY_MS
    } else {
        SLOW_SCAN_DELAY_MS
    }
}

/// Whether an advertised name is that of a beacon.
pub open spec fn is_beacon_name(name: Seq<char>) -> bool {
    crate::text::starts_with_text(name, DEVICE_NAME_PREFIX@)
}

/// Tests whether an advertised name is that of a beacon.
pub fn is_beacon(name: &str) -> (found: bool)
    ensures
        found == is_beacon_name(name@),
{
    crate::text::starts_with(name, DEVICE_NAME_PREFIX)
}

/// Whether the message of a failed scan start only says that a scan is
/// running already.
pub open spec fn is_scan_running_text(message: Seq<char>) -> bool {
    ||| crate::text::contains_text(message, "org.bluez.Error.InProgress"@)
    ||| crate::text::contains_text(message, "Operation already in progress"@)
}

/// Tests whether the message of a failed scan start only says that a scan
/// is running already.
pub fn is_scan_running(message: &str) -> (benign: bool)
    ensures
        benign == is_scan_running_text(message@),
{
    crate::text::contains(message, "org.bluez.Error.InProgress") || crate::text::contains(
        message,
        "Operation already in progress",
    )
}

} // verus!
