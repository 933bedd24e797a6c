//! The values that peers exchange: a clipboard `Frame` and the `HandShake`
//! that opens every connection and every discovery announcement.

use std::time::{Duration, SystemTime, SystemTimeError, UNIX_EPOCH};
use vstd::prelude::*;
use vstd::std_specs::cmp::PartialEqSpec;

verus! {

#[verifier::external_type_specification]
#[verifier::external_body]
pub struct ExSystemTime(SystemTime);

#[verifier::external_type_specification]
#[verifier::external_body]
pub struct ExSystemTimeError(SystemTimeError);

/// The 64-bit XXH3 digest (seed 0, default secret) of a byte sequence.
pub uninterp spec fn xxh3_64_of(data: Seq<u8>) -> u64;

/// Calls `xxhash_rust::const_xxh3::xxh3_64`, a pure function of its input:
/// the digest is `xxh3_64_of` of the bytes handed in.
#[verifier::external_body]
fn xxh3_64(data: &[u8]) -> (digest: u64)
    ensures
        digest == xxh3_64_of(data@),
{
    xxhash_rust::const_xxh3::xxh3_64(data)
}

/// Calls `std::time::SystemTime::now`. Nothing is promised of the clock.
#[verifier::external_body]
fn system_time_now() -> SystemTime {
    SystemTime::now()
}

/// Calls `SystemTime::duration_since` with `UNIX_EPOCH`; it fails when the
/// clock stands before the epoch. Nothing is promised of the duration.
#[verifier::external_body]
fn since_unix_epoch(t: &SystemTime) -> Result<Duration, SystemTimeError> {
    t.duration_since(UNIX_EPOCH)
}

/// Whether `ms` is the number of whole milliseconds in some `Duration`: a
/// duration is a whole number of seconds (a `u64`) and a fraction of a
/// second in nanoseconds (less than one billion).
pub open spec fn is_duration_millis(ms: int) -> bool {
    exists|secs: u64, nanos: u32|
        nanos < 1_000_000_000 && ms == #[trigger] duration_millis(secs, nanos)
}

/// The whole milliseconds in `secs` seconds and `nanos` nanoseconds.
pub open spec fn duration_millis(secs: u64, nanos: u32) -> int {
    secs * 1000 + nanos / 1_000_000
}

/// Calls `Duration::as_millis`, which returns the total number of whole
/// milliseconds in the duration. Durations are opaque here, so which
/// duration it was is not stated; the count is that of some duration.
#[verifier::external_body]
fn whole_millis(d: &Duration) -> (ms: u128)
    ensures
        is_duration_millis(ms as int),
{
    d.as_millis()
}

/// Reads the system clock: the whole milliseconds since the Unix epoch, or
/// `None` when the clock reads a time before the epoch.
pub fn clock_reading() -> (reading: Option<u128>)
    ensures
        reading matches Some(ms) ==> is_duration_millis(ms as int),
{
    let now = system_time_now();
    match since_unix_epoch(&now) {
        Ok(d) => Some(whole_millis(&d)),
        Err(_) => None,
    }
}

/// The timestamp given for a clock reading: the milliseconds read, or 0 when
/// the clock stood before the epoch.
pub fn timestamp_from_clock(reading: Option<u128>) -> (ms: u128)
    ensures
        ms == match reading {
            Some(m) => m,
            None => 0,
        },
{
    match reading {
        Some(m) => m,
        None => 0,
    }
}

/// Milliseconds since the Unix epoch by the system clock, or 0 when the
/// clock reads a time before the epoch (see `timestamp_from_clock`). Either
/// way it is the number of whole milliseconds in a duration.
pub fn current_unix_millis() -> (ms: u128)
    ensures
        is_duration_millis(ms as int),
        exists|reading: Option<u128>| #[trigger]
            call_ensures(clock_reading, (), reading) && ms == match reading {
                Some(m) => m,
                None => 0,
            },
{
    let read_clock = clock_reading;
    let reading = read_clock();
    proof {
        assert(duration_millis(0, 0) == 0);
    }
    timestamp_from_clock(reading)
}

/// Two frames are equal exactly when their digests are equal, whatever their
/// bytes and timestamps; frames with different digests are never equal.
pub proof fn lemma_frame_eq_compares_digests(a: Frame, b: Frame)
    ensures
        a.eq_spec(&b) <==> a.hash == b.hash,
        a.hash != b.hash ==> !a.eq_spec(&b),
{
}

/// A timestamp is what the clock gave: the milliseconds of a reading that
/// `clock_reading` returned, or 0 when that reading found the clock before the epoch.
pub proof fn lemma_timestamp_comes_from_clock(ms: u128)
    requires
        call_ensures(current_unix_millis, (), ms),
    ensures
        exists|reading: Option<u128>| #[trigger]
            call_ensures(clock_reading, (), reading) && ms == match reading {
                Some(m) => m,
                None => 0,
            },
{
}

/// A clipboard content together with the time it was taken and its digest.
#[derive(Debug, Clone)]
pub struct Frame {
    pub bytes: Vec<u8>,
    pub timestamp: u128,
    pub hash: u64,
}

/// Two frames stand for the same clipboard content exactly when their digests agree.
impl PartialEq for Frame {
    fn eq(&self, other: &Self) -> (same: bool) {
        self.hash == other.hash
    }
}

impl vstd::std_specs::cmp::PartialEqSpecImpl for Frame {
    open spec fn obeys_eq_spec() -> bool {
        true
    }

    open spec fn eq_spec(&self, other: &Self) -> bool {
        self.hash == other.hash
    }
}

impl Frame {
    /// The frame of `bytes` taken at `timestamp`: its digest is the XXH3 digest of the bytes.
    pub fn with_timestamp(bytes: &[u8], timestamp: u128) -> (frame: Frame)
        ensures
            frame.bytes@ == bytes@,
            frame.timestamp == timestamp,
            frame.hash == xxh3_64_of(bytes@),
    {
        let hash = xxh3_64(bytes);
        Frame { bytes: vstd::slice::slice_to_vec(bytes), timestamp, hash }
    }

    /// The frame of `bytes`, stamped with the current time in milliseconds
    /// since the Unix epoch (0 when the clock stands before the epoch).
    pub fn new(bytes: &[u8]) -> (frame: Frame)
        ensures
            frame.bytes@ == bytes@,
            frame.hash == xxh3_64_of(bytes@),
            is_duration_millis(frame.timestamp as int),
            exists|reading: Option<u128>| #[trigger]
                call_ensures(clock_reading, (), reading) && frame.timestamp == match reading {
                    Some(m) => m,
                    None => 0,
                },
    {
        let stamp = current_unix_millis;
        let timestamp = stamp();
        Frame::with_timestamp(bytes, timestamp)
    }
}

/// The greeting a peer sends first on every connection, and broadcasts to be
/// discovered: who it is (a 128-bit device id) and the TCP port it listens on.
#[derive(Debug, Clone, Copy, PartialEq, Eq, Structural)]
pub struct HandShake {
    pub device_id: u128,
    pub tcp_port: u16,
}

impl HandShake {
    pub fn new(device_id: u128, tcp_port: u16) -> (h: HandShake)
        ensures
            h.device_id == device_id,
            h.tcp_port == tcp_port,
    {
        HandShake { device_id, tcp_port }
    }
}

/// Frames made from the same bytes are equal, whenever they were taken:
/// equality looks at the digest, which the bytes alone decide.
pub proof fn lemma_frames_of_same_bytes_equal(a: Frame, b: Frame)
    requires
        a.bytes@ == b.bytes@,
        a.hash == xxh3_64_of(a.bytes@),
        b.hash == xxh3_64_of(b.bytes@),
    ensures
        a.eq_spec(&b),
{
}

/// Equality of frames is an equivalence relation.
pub proof fn lemma_frame_eq_is_equivalence(a: Frame, b: Frame, c: Frame)
    ensures
        a.eq_spec(&a),
        a.eq_spec(&b) == b.eq_spec(&a),
        a.eq_spec(&b) && b.eq_spec(&c) ==> a.eq_spec(&c),
{
}

} // verus!
