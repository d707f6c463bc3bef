//! What every capture can do.

use vstd::prelude::*;

verus! {

/// A blocking duplex channel for raw link-layer frames.
///
/// Nothing is buffered and no framing is assumed: one call moves at most
/// as many bytes as the buffer holds, and the returned count is the only
/// frame boundary a caller learns. A failed call is not retried.
///
/// What a channel does beyond that depends on what it is attached to.
/// The three relations below stand for it in contracts: a channel that
/// knows more about itself says so there, and one that wraps another
/// channel says of itself what the inner channel says.
pub trait Capture {
    /// The suspending counterpart of this channel.
    type AsyncCaptureType;

    /// What a receive on this channel may do to a buffer and return.
    open spec fn receives(
        &self,
        before: Seq<u8>,
        after: Seq<u8>,
        received: std::io::Result<usize>,
    ) -> bool {
        true
    }

    /// What a send of these bytes on this channel may return.
    open spec fn sends(&self, bytes: Seq<u8>, sent: std::io::Result<usize>) -> bool {
        true
    }

    /// What this channel may turn into when it is converted.
    open spec fn converts_to(&self, suspending: Self::AsyncCaptureType) -> bool {
        true
    }

    /// Blocks until a frame arrives, writes it to the front of `buf` and
    /// returns its length.
    fn recv(&self, buf: &mut [u8]) -> (received: std::io::Result<usize>)
        ensures
            self.receives(old(buf)@, final(buf)@, received),
            final(buf)@.len() == old(buf)@.len(),
            received matches Ok(count) ==> count <= old(buf)@.len(),
    ;

    /// Hands the bytes of `buf` to the channel as they are and returns how
    /// many of them were taken.
    fn send(&self, buf: &[u8]) -> (sent: std::io::Result<usize>)
        ensures
            self.sends(buf@, sent),
            sent matches Ok(count) ==> count <= buf@.len(),
    ;

    /// Turns the channel into its suspending counterpart. The resource
    /// that is already bound moves into the result: nothing is opened,
    /// looked up or bound again.
    fn to_async(self) -> (suspending: Self::AsyncCaptureType)
        ensures
            self.converts_to(suspending),
    ;
}

} // verus!
