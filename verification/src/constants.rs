//! Constants for MPEG-TS packet handling and the TR 101 290 checks.
use vstd::prelude::*;

verus! {

/// Size of one transport-stream packet in bytes.
pub const TS_PACKET_SIZE: usize = 188;

/// The sync byte that opens every transport-stream packet.
pub const TS_SYNC_BYTE: u8 = 0x47;

/// The PID that carries null (stuffing) packets.
pub const NULL_PID: u16 = 0x1FFF;

/// PCR system clock, in ticks per millisecond (27 MHz).
pub const PCR_TICKS_PER_MS: u64 = 27_000;

/// Maximum wall-clock gap between two PCRs of one PID, in milliseconds.
pub const PCR_REPETITION_MS: u64 = 40;

/// PCR accuracy tolerance in 27 MHz ticks (500 microseconds).
pub const PCR_ACCURACY_TICKS: u64 = 13_500;

/// PTS clock rate in ticks per second (90 kHz).
pub const PTS_CLOCK_HZ: u64 = 90_000;

/// One whole PCR wrap period in 27 MHz ticks: 2^33 * 300.
pub const PCR_WRAP_TICKS: u64 = 0x200000000 * 300;

/// A backward PTS step of at least half the 33-bit range counts as a wrap.
pub const PTS_WRAP_THRESHOLD: u64 = 8589934592;

/// Maximum tolerated forward PTS jump, in 90 kHz ticks (60 seconds).
pub const MAX_PTS_JUMP: u64 = 5_400_000;

/// Largest PTS delta (in ticks) still used for frame-rate estimation.
pub const MAX_PTS_DELTA_TICKS: u64 = 90_000;

/// Table repetition windows, in milliseconds.
pub const PAT_TIMEOUT_MS: u64 = 500;
pub const PMT_TIMEOUT_MS: u64 = 500;
pub const CAT_TIMEOUT_MS: u64 = 2000;
pub const NIT_TIMEOUT_MS: u64 = 2000;
pub const SDT_TIMEOUT_MS: u64 = 2000;
pub const EIT_TIMEOUT_MS: u64 = 2000;
pub const TDT_TIMEOUT_MS: u64 = 2000;

/// Null-packet byte-rate threshold: more than 15 null bytes per 100 bytes
/// inside one one-second window is an error.
pub const NULL_RATE_NUM: u64 = 15;
pub const NULL_RATE_DEN: u64 = 100;

/// Consecutive packets without a valid sync byte before sync loss is counted.
pub const SYNC_LOSS_THRESHOLD: u64 = 5;

/// Idle time after which an elementary stream is evicted, in seconds.
pub const STREAM_TIMEOUT_SECONDS: u64 = 30;

/// Number of PTS samples needed before a frame rate is estimated.
pub const MIN_PTS_SAMPLES_FOR_FPS: usize = 3;

/// Every PID is a 13-bit value, so the per-PID tables have this many slots.
pub const PID_LIMIT: usize = 8192;

/// True for the PIDs reserved for the standard tables, and for null packets.
pub open spec fn is_system_pid(pid: u16) -> bool {
    pid == 0x0000 || pid == 0x0001 || pid == 0x0010 || pid == 0x0011 || pid == 0x0012
        || pid == 0x0013 || pid == 0x0014 || pid == 0x1FFF
}

/// Executable check matching [`is_system_pid`].
pub fn system_pid(pid: u16) -> (r: bool)
    ensures
        r == is_system_pid(pid),
{
    pid == 0x0000 || pid == 0x0001 || pid == 0x0010 || pid == 0x0011 || pid == 0x0012
        || pid == 0x0013 || pid == 0x0014 || pid == 0x1FFF
}

} // verus!
