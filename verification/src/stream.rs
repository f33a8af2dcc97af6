//! Byte-stream reads and writes on a session.
use crate::device::{Device, DeviceView};
use crate::status::{status_to_result, FT_OK};
use vstd::prelude::*;

verus! {

/// Why a read or a write failed. The driver's status is not kept.
#[derive(Debug, Clone, Copy, PartialEq, Eq)]
pub enum StreamError {
    /// The session is closed: the driver was not asked.
    NotOpen,
    /// The driver reported a failure.
    Failed,
}

/// Arguments of the driver call that reads or writes: the session's handle
/// and the number of bytes of the caller's buffer that the driver may use.
#[derive(Debug, Clone, Copy, PartialEq, Eq)]
pub struct Transfer {
    pub handle: usize,
    pub len: u32,
}

/// The byte count handed to the driver for a buffer of `len` bytes: the low
/// 32 bits of `len`.
pub open spec fn transfer_len(len: nat) -> u32 {
    (len % 0x1_0000_0000) as u32
}

impl DeviceView {
    /// What a read or a write asks of the driver for a buffer of `len` bytes:
    /// nothing on a closed session.
    pub open spec fn transfer_call(self, len: nat) -> Result<Transfer, StreamError> {
        if self.has_handle() {
            Ok(Transfer { handle: self.info.handle, len: transfer_len(len) })
        } else {
            Err(StreamError::NotOpen)
        }
    }

    /// The result of a read or a write, given the driver's status and the
    /// number of bytes it reported.
    pub open spec fn transfer_result(self, status: u32, count: u32) -> Result<usize, StreamError> {
        if !self.has_handle() {
            Err(StreamError::NotOpen)
        } else if status != FT_OK {
            Err(StreamError::Failed)
        } else {
            Ok(count as usize)
        }
    }
}

fn to_transfer_len(len: usize) -> (n: u32)
    ensures
        n == transfer_len(len as nat),
{
    let n: u32 = #[verifier::truncate]
    (len as u32);
    assert(n == (len as u64) % 0x1_0000_0000u64) by (bit_vector)
        requires
            n == len as u32,
    ;
    n
}

impl Device {
    /// What reading into `buf` asks of the driver: to read at most the
    /// buffer's length, in its low 32 bits, from the session's handle. A
    /// closed session asks nothing, so that `buf` is never handed to the
    /// driver, and fails with `NotOpen`.
    pub fn read_request(&self, buf: &[u8]) -> (r: Result<Transfer, StreamError>)
        ensures
            r == self@.transfer_call(buf@.len()),
    {
        self.transfer_request(buf.len())
    }

    /// Takes the driver's answer to a read: its status and the number of
    /// bytes it stored. Zero bytes is a success. Any failure of the driver
    /// becomes `Failed`. The session is left as it is.
    pub fn read(&mut self, status: u32, bytes_returned: u32) -> (r: Result<usize, StreamError>)
        ensures
            r == old(self)@.transfer_result(status, bytes_returned),
            final(self)@ == old(self)@,
    {
        self.transfer_done(status, bytes_returned)
    }

    /// What writing `buf` asks of the driver: to write at most the buffer's
    /// length, in its low 32 bits, to the session's handle. A closed session
    /// asks nothing and fails with `NotOpen`.
    pub fn write_request(&self, buf: &[u8]) -> (r: Result<Transfer, StreamError>)
        ensures
            r == self@.transfer_call(buf@.len()),
    {
        self.transfer_request(buf.len())
    }

    /// Takes the driver's answer to a write: its status and the number of
    /// bytes it accepted. Any failure of the driver becomes `Failed`. The
    /// session is left as it is.
    pub fn write(&mut self, status: u32, bytes_written: u32) -> (r: Result<usize, StreamError>)
        ensures
            r == old(self)@.transfer_result(status, bytes_written),
            final(self)@ == old(self)@,
    {
        self.transfer_done(status, bytes_written)
    }

    /// Nothing is buffered on this side of the driver: flushing succeeds in
    /// every state and changes nothing.
    pub fn flush(&mut self) -> (r: Result<(), StreamError>)
        ensures
            r == Ok::<(), StreamError>(()),
            final(self)@ == old(self)@,
    {
        Ok(())
    }

    fn transfer_request(&self, len: usize) -> (r: Result<Transfer, StreamError>)
        ensures
            r == self@.transfer_call(len as nat),
    {
        let handle = self.get_handle();
        if handle == 0 {
            Err(StreamError::NotOpen)
        } else {
            Ok(Transfer { handle, len: to_transfer_len(len) })
        }
    }

    fn transfer_done(&self, status: u32, count: u32) -> (r: Result<usize, StreamError>)
        ensures
            r == self@.transfer_result(status, count),
    {
        if self.get_handle() == 0 {
            return Err(StreamError::NotOpen);
        }
        match status_to_result(status) {
            Ok(()) => Ok(count as usize),
            Err(_) => Err(StreamError::Failed),
        }
    }
}

/// On a closed session neither a read nor a write reaches the driver, so the
/// caller's buffer is not handed to it, and both fail with `NotOpen` whatever
/// answer is given for the driver.
pub proof fn lemma_closed_session_moves_no_bytes(d: DeviceView, len: nat, status: u32, count: u32)
    requires
        !d.has_handle(),
    ensures
        d.transfer_call(len) == Err::<Transfer, StreamError>(StreamError::NotOpen),
        d.transfer_result(status, count) == Err::<usize, StreamError>(StreamError::NotOpen),
{
}

} // verus!
