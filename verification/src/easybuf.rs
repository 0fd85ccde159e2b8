//! What the codec relies on of `tokio_core::io::EasyBuf`, the receive buffer
//! that the framing layer hands to a decoder.
//!
//! Nothing in this file is proved: it states what the buffer's own code does.

use vstd::prelude::*;
use tokio_core::io::EasyBuf;

verus! {

/// `tokio_core::io::EasyBuf`: a window into a shared vector of bytes.
#[verifier::external_type_specification]
#[verifier::external_body]
pub struct ExEasyBuf(tokio_core::io::EasyBuf);

/// The bytes in the window of `buf`, first to last.
pub uninterp spec fn easybuf_bytes(buf: EasyBuf) -> Seq<u8>;

/// `EasyBuf::as_slice` returns the bytes in the window, as they are.
pub assume_specification[ EasyBuf::as_slice ](buf: &EasyBuf) -> (s: &[u8])
    ensures
        s@ == easybuf_bytes(*buf),
;

/// `EasyBuf::drain_to` moves the start of the window forward by `at` bytes
/// and returns a buffer whose window is the `at` bytes that were skipped.
/// It panics where the window holds fewer than `at` bytes, which `requires`
/// leaves out.
pub assume_specification[ EasyBuf::drain_to ](buf: &mut EasyBuf, at: usize) -> (front: EasyBuf)
    requires
        at <= easybuf_bytes(*old(buf)).len(),
    ensures
        easybuf_bytes(front) == easybuf_bytes(*old(buf)).subrange(0, at as int),
        easybuf_bytes(*final(buf)) == easybuf_bytes(*old(buf)).subrange(
            at as int,
            easybuf_bytes(*old(buf)).len() as int,
        ),
;

} // verus!
