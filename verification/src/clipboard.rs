//! What a device remembers of its clipboard — the digest and timestamp of the
//! content last seen — and the rule that decides which changes are forwarded
//! to peers and which received frames are applied.

use crate::frame::Frame;
use vstd::prelude::*;

verus! {

/// The text `String::from_utf8_lossy` makes of a byte sequence: the bytes
/// decoded as UTF-8, each invalid sequence replaced by U+FFFD.
pub uninterp spec fn utf8_lossy_text(bytes: Seq<u8>) -> Seq<char>;

/// Whether every byte is below 0x80, so that the bytes are ASCII text.
pub open spec fn is_ascii_bytes(bytes: Seq<u8>) -> bool {
    forall|i: int| 0 <= i < bytes.len() ==> bytes[i] < 0x80
}

/// Calls `String::from_utf8_lossy` and takes the text as an owned `String`.
/// The text is `utf8_lossy_text` of the bytes; valid UTF-8 is decoded without
/// replacement, so ASCII bytes give the characters of the same codes.
#[verifier::external_body]
fn utf8_lossy(bytes: &[u8]) -> (text: String)
    ensures
        text@ == utf8_lossy_text(bytes@),
        is_ascii_bytes(bytes@) ==> text@ == bytes@.map_values(|b: u8| b as char),
{
    String::from_utf8_lossy(bytes).into_owned()
}

/// The text written to the clipboard for received bytes: the bytes decoded
/// as UTF-8, with each invalid sequence replaced by U+FFFD.
pub fn clipboard_text(bytes: &[u8]) -> (text: String)
    ensures
        text@ == utf8_lossy_text(bytes@),
        is_ascii_bytes(bytes@) ==> text@ == bytes@.map_values(|b: u8| b as char),
{
    utf8_lossy(bytes)
}

/// Seconds to wait before connecting again to a display server whose
/// clipboard could not be watched.
pub const WATCH_RETRY_SECS: u64 = 2;

/// The digest and the timestamp of the clipboard content last seen.
#[derive(Debug, Clone, Copy, PartialEq, Eq, Structural)]
pub struct ClipboardState {
    pub hash: u64,
    pub timestamp: u128,
}

impl Default for ClipboardState {
    fn default() -> (s: ClipboardState)
        ensures
            s == (ClipboardState { hash: 0, timestamp: 0 }),
    {
        ClipboardState { hash: 0, timestamp: 0 }
    }
}

impl ClipboardState {
    /// A frame received from a peer is applied when it carries other content
    /// than the one last seen and is newer than it.
    pub open spec fn accepts_remote(self, hash: u64, timestamp: u128) -> bool {
        hash != self.hash && timestamp > self.timestamp
    }

    /// A local clipboard change is forwarded when it differs from the content last seen.
    pub open spec fn accepts_local(self, hash: u64) -> bool {
        hash != self.hash
    }

    /// The state after a remote frame with this digest and timestamp arrived.
    pub open spec fn after_remote(self, hash: u64, timestamp: u128) -> ClipboardState {
        if self.accepts_remote(hash, timestamp) {
            ClipboardState { hash, timestamp }
        } else {
            self
        }
    }

    /// The state after a local change with this digest and timestamp was seen.
    pub open spec fn after_local(self, hash: u64, timestamp: u128) -> ClipboardState {
        if self.accepts_local(hash) {
            ClipboardState { hash, timestamp }
        } else {
            self
        }
    }

    /// Takes a frame received from a peer; tells whether its content is to be
    /// written to the local clipboard, and if so remembers it.
    pub fn apply_remote(&mut self, frame: &Frame) -> (applied: bool)
        ensures
            applied == old(self).accepts_remote(frame.hash, frame.timestamp),
            *final(self) == old(self).after_remote(frame.hash, frame.timestamp),
            applied == (frame.hash != old(self).hash && frame.timestamp > old(self).timestamp),
            applied ==> final(self).hash == frame.hash && final(self).timestamp == frame.timestamp,
            !applied ==> *final(self) == *old(self),
    {
        if frame.hash != self.hash && frame.timestamp > self.timestamp {
            self.hash = frame.hash;
            self.timestamp = frame.timestamp;
            true
        } else {
            false
        }
    }

    /// Takes a frame made from the local clipboard after it changed; tells
    /// whether it is to be sent to the peers, and if so remembers it.
    pub fn record_local(&mut self, frame: &Frame) -> (forward: bool)
        ensures
            forward == old(self).accepts_local(frame.hash),
            *final(self) == old(self).after_local(frame.hash, frame.timestamp),
            forward == (frame.hash != old(self).hash),
            forward ==> final(self).hash == frame.hash && final(self).timestamp == frame.timestamp,
            !forward ==> *final(self) == *old(self),
    {
        if frame.hash == self.hash {
            false
        } else {
            self.hash = frame.hash;
            self.timestamp = frame.timestamp;
            true
        }
    }
}

/// A received frame whose digest differs from the content last seen and
/// whose timestamp is greater is applied, and the state becomes that frame's
/// digest and timestamp; any other received frame is dropped and changes
/// nothing.
pub proof fn lemma_remote_frame_applied_iff_new_and_newer(
    s: ClipboardState,
    hash: u64,
    timestamp: u128,
)
    ensures
        hash != s.hash && timestamp > s.timestamp ==> s.accepts_remote(hash, timestamp)
            && s.after_remote(hash, timestamp) == (ClipboardState { hash, timestamp }),
        hash == s.hash || timestamp <= s.timestamp ==> !s.accepts_remote(hash, timestamp)
            && s.after_remote(hash, timestamp) == s,
{
}

/// A local change whose digest differs from the content last seen is
/// forwarded and remembered; a change to the same digest is not.
pub proof fn lemma_local_change_forwarded_iff_new(s: ClipboardState, hash: u64, timestamp: u128)
    ensures
        hash != s.hash ==> s.accepts_local(hash) && s.after_local(hash, timestamp) == (
        ClipboardState { hash, timestamp }),
        hash == s.hash ==> !s.accepts_local(hash) && s.after_local(hash, timestamp) == s,
{
}

/// No echo: once a received frame has been applied, the local clipboard
/// change it causes carries the same digest and is not sent back.
pub proof fn lemma_applied_remote_not_echoed(
    s: ClipboardState,
    hash: u64,
    timestamp: u128,
    local_timestamp: u128,
)
    requires
        s.accepts_remote(hash, timestamp),
    ensures
        !s.after_remote(hash, timestamp).accepts_local(hash),
        s.after_remote(hash, timestamp).after_local(hash, local_timestamp) == s.after_remote(
            hash,
            timestamp,
        ),
{
}

/// A local content is forwarded at most once in a row: after it was seen,
/// seeing the same content again forwards nothing and changes nothing.
pub proof fn lemma_local_change_forwarded_once(
    s: ClipboardState,
    hash: u64,
    timestamp: u128,
    later: u128,
)
    ensures
        !s.after_local(hash, timestamp).accepts_local(hash),
        s.after_local(hash, timestamp).after_local(hash, later) == s.after_local(hash, timestamp),
{
}

/// Receiving the same frame twice applies it at most once.
pub proof fn lemma_remote_frame_applied_once(s: ClipboardState, hash: u64, timestamp: u128)
    ensures
        !s.after_remote(hash, timestamp).accepts_remote(hash, timestamp),
        s.after_remote(hash, timestamp).after_remote(hash, timestamp) == s.after_remote(
            hash,
            timestamp,
        ),
{
}

/// Received frames never move the remembered timestamp back, and a frame no
/// newer than the content last seen is never applied.
pub proof fn lemma_remote_timestamp_monotone(s: ClipboardState, hash: u64, timestamp: u128)
    ensures
        s.after_remote(hash, timestamp).timestamp >= s.timestamp,
        timestamp <= s.timestamp ==> s.after_remote(hash, timestamp) == s,
{
}

/// A local change of content is always forwarded, whatever its timestamp.
pub proof fn lemma_new_local_content_forwarded(s: ClipboardState, hash: u64, timestamp: u128)
    requires
        hash != s.hash,
    ensures
        s.accepts_local(hash),
        s.after_local(hash, timestamp) == (ClipboardState { hash, timestamp }),
{
}

} // verus!
