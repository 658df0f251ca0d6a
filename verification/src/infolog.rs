//! Shader build diagnostics: deciding from a status word whether a build
//! step failed, and extracting the driver's NUL-terminated message from the
//! fixed-size info-log buffer it filled.

use vstd::prelude::*;

verus! {

/// Size in bytes of the buffer handed to the driver for an info log.
pub const INFO_LOG_CAP: usize = 512;

/// Whether a byte sequence holds a NUL terminator.
pub open spec fn has_nul(s: Seq<u8>) -> bool {
    exists|i: int| 0 <= i < s.len() && s[i] == 0
}

/// `msg` is the prefix of `buf` that ends at the first NUL: it is NUL-free,
/// and the byte of `buf` just past it is NUL.
pub open spec fn is_prefix_to_nul(msg: Seq<u8>, buf: Seq<u8>) -> bool {
    &&& msg.len() < buf.len()
    &&& msg == buf.subrange(0, msg.len() as int)
    &&& buf[msg.len() as int] == 0
    &&& forall|j: int| 0 <= j < msg.len() ==> buf[j] != 0
}

/// A zero-filled buffer of `INFO_LOG_CAP` bytes, as handed to the driver
/// before querying an info log.
pub fn log_buffer() -> (r: Vec<u8>)
    ensures
        r@.len() == INFO_LOG_CAP,
        forall|i: int| 0 <= i < r@.len() ==> r@[i] == 0,
{
    let mut buf: Vec<u8> = Vec::new();
    let mut k: usize = 0;
    while k < INFO_LOG_CAP
        invariant
            k <= INFO_LOG_CAP,
            buf@.len() == k,
            forall|i: int| 0 <= i < buf@.len() ==> buf@[i] == 0,
        decreases INFO_LOG_CAP - k,
    {
        buf.push(0);
        k = k + 1;
    }
    buf
}

/// The bytes of `buf` that precede its first NUL terminator, or `None` when
/// no byte of `buf` is NUL (the message was not terminated).
pub fn bytes_until_nul(buf: &Vec<u8>) -> (r: Option<Vec<u8>>)
    ensures
        (r is Some) == has_nul(buf@),
        r matches Some(msg) ==> is_prefix_to_nul(msg@, buf@),
{
    let mut msg: Vec<u8> = Vec::new();
    let mut k: usize = 0;
    while k < buf.len()
        invariant
            k <= buf@.len(),
            msg@ == buf@.subrange(0, k as int),
            forall|j: int| 0 <= j < k ==> buf@[j] != 0,
        decreases buf@.len() - k,
    {
        let b = buf[k];
        if b == 0 {
            proof {
                assert(has_nul(buf@)) by {
                    assert(0 <= k < buf@.len() && buf@[k as int] == 0);
                }
            }
            return Some(msg);
        }
        msg.push(b);
        k = k + 1;
        proof {
            assert(msg@ =~= buf@.subrange(0, k as int));
        }
    }
    None
}

/// A build step (compile or link) failed exactly when the driver reported a
/// status word of zero.
pub fn step_failed(success: i32) -> (r: bool)
    ensures
        r == (success == 0),
{
    success == 0
}

} // verus!
