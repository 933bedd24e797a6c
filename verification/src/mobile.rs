//! The bridge to mobile front ends: received frames are handed to a receiver
//! that the host application implements.

use crate::frame::Frame;
use vstd::prelude::*;

verus! {

/// Implemented by the host application to receive frames from peers.
pub trait MobileClipboardReceiver {
    fn on_remote_frame(&self, hash: u64, timestamp: u64, bytes: Vec<u8>);
}

/// The timestamp handed to a mobile receiver: the frame's timestamp cut to
/// 64 bits, as a cast to `u64` does.
pub fn mobile_timestamp(timestamp: u128) -> (t: u64)
    ensures
        t == timestamp % 0x1_0000_0000_0000_0000,
{
    (timestamp % 0x1_0000_0000_0000_0000) as u64
}

/// What a receiver is handed for a frame: its digest, its timestamp cut to
/// 64 bits, and its bytes, in that order.
pub fn remote_frame_args(frame: Frame) -> (args: (u64, u64, Vec<u8>))
    ensures
        args.0 == frame.hash,
        args.1 == frame.timestamp % 0x1_0000_0000_0000_0000,
        args.2@ == frame.bytes@,
        args.2 == frame.bytes,
{
    let timestamp = mobile_timestamp(frame.timestamp);
    (frame.hash, timestamp, frame.bytes)
}

/// Hands a frame received from a peer to the receiver, as the arguments that
/// `remote_frame_args` computes: the receiver's `on_remote_frame` is called
/// once, with the frame's digest, its timestamp cut to 64 bits, and its
/// bytes. Whether the content is applied is left to the receiver.
pub fn forward_remote_frame<R: MobileClipboardReceiver>(receiver: &R, frame: Frame)
    ensures
        call_ensures(
            R::on_remote_frame,
            (receiver, frame.hash, (frame.timestamp % 0x1_0000_0000_0000_0000) as u64, frame.bytes),
            (),
        ),
{
    let (hash, timestamp, bytes) = remote_frame_args(frame);
    let deliver = R::on_remote_frame;
    deliver(receiver, hash, timestamp, bytes);
}

/// Forwarding a frame hands the receiver exactly the frame's digest, its
/// timestamp cut to 64 bits, and all of its bytes.
pub proof fn lemma_forwarded_frame_reaches_receiver<R: MobileClipboardReceiver>(
    receiver: &R,
    frame: Frame,
)
    requires
        call_ensures(forward_remote_frame::<R>, (receiver, frame), ()),
    ensures
        call_ensures(
            R::on_remote_frame,
            (receiver, frame.hash, (frame.timestamp % 0x1_0000_0000_0000_0000) as u64, frame.bytes),
            (),
        ),
{
}

} // verus!
