//! The engine's read, seek and tell callbacks: what each one answers.
//!
//! The engine pulls bytes through three callbacks that can hand back a number
//! and nothing else. The functions here decide those numbers; the caller
//! performs the reads and seeks on the stream.

use vstd::prelude::*;

verus! {

/// Where a seek on the stream starts from, and how far it goes.
#[derive(Clone, Copy, Debug, PartialEq, Eq, Structural)]
pub enum SeekTarget {
    /// So many bytes from the start of the stream.
    Start(u64),
    /// So many bytes from the current position.
    Current(i64),
    /// So many bytes from the end of the stream.
    End(i64),
}

/// What the read callback does next.
#[derive(Clone, Copy, Debug, PartialEq, Eq, Structural)]
pub enum ReadStep {
    /// Read from the stream once more.
    Retry,
    /// Hand this number of bytes back to the engine.
    Done(usize),
}

/// The origin code for a seek from the start of the stream.
pub open spec fn origin_start() -> int {
    0
}

/// The origin code for a seek from the current position.
pub open spec fn origin_current() -> int {
    1
}

/// The origin code for a seek from the end of the stream.
pub open spec fn origin_end() -> int {
    2
}

/// True when `whence` is one of the three origin codes.
pub open spec fn is_origin(whence: int) -> bool {
    whence == origin_start() || whence == origin_current() || whence == origin_end()
}

/// The seek that the engine asks for with `offset` and `whence`.
pub open spec fn target_of(offset: i64, whence: int) -> SeekTarget {
    if whence == origin_start() {
        SeekTarget::Start(offset as u64)
    } else if whence == origin_current() {
        SeekTarget::Current(offset)
    } else {
        SeekTarget::End(offset)
    }
}

/// Reads the constant `libc::SEEK_SET`. The contract claims its value, 0.
#[verifier::external_body]
fn libc_seek_set() -> (whence: i32)
    ensures
        whence == origin_start(),
{
    libc::SEEK_SET
}

/// Reads the constant `libc::SEEK_CUR`. The contract claims its value, 1.
#[verifier::external_body]
fn libc_seek_cur() -> (whence: i32)
    ensures
        whence == origin_current(),
{
    libc::SEEK_CUR
}

/// Reads the constant `libc::SEEK_END`. The contract claims its value, 2.
#[verifier::external_body]
fn libc_seek_end() -> (whence: i32)
    ensures
        whence == origin_end(),
{
    libc::SEEK_END
}

/// Whether `std::io::Error::kind` says of the fault that it is an interrupted
/// call, `std::io::ErrorKind::Interrupted`. The kind of a fault depends on the
/// fault alone.
pub uninterp spec fn fault_interrupted(fault: std::io::Error) -> bool;

/// Asks `std::io::Error::kind` whether the fault is an interrupted call. The
/// contract claims that the answer is the one that goes by the name
/// `fault_interrupted`, and nothing of what that answer is.
#[verifier::external_body]
pub(crate) fn fault_is_interrupted(fault: &std::io::Error) -> (interrupted: bool)
    ensures
        interrupted == fault_interrupted(*fault),
{
    fault.kind() == std::io::ErrorKind::Interrupted
}

/// Tells whether `whence` is an origin code that `seek_target` accepts.
pub fn is_seek_origin(whence: i32) -> (known: bool)
    ensures
        known == is_origin(whence as int),
{
    whence == libc_seek_set() || whence == libc_seek_cur() || whence == libc_seek_end()
}

/// The length of the buffer that the engine asks to fill with `nmemb` units of
/// `size` bytes. The engine asks for units of one byte and nothing else.
pub fn read_length(size: usize, nmemb: usize) -> (length: usize)
    requires
        size == 1,
    ensures
        length == nmemb,
{
    nmemb
}

/// Maps a seek of the engine to a seek on the stream.
///
/// A seek from the start takes the offset as an unsigned number, keeping its
/// bits; the two others take it as it is.
pub fn seek_target(offset: i64, whence: i32) -> (target: SeekTarget)
    requires
        is_origin(whence as int),
    ensures
        target == target_of(offset, whence as int),
{
    if whence == libc_seek_set() {
        SeekTarget::Start(offset as u64)
    } else if whence == libc_seek_cur() {
        SeekTarget::Current(offset)
    } else {
        SeekTarget::End(offset)
    }
}

/// The answer of the seek callback: 0 when the stream moved, -1 when it
/// failed. The fault itself has no way back to the engine and is dropped.
pub fn seek_status(outcome: &Result<u64, std::io::Error>) -> (status: i32)
    ensures
        status == (if outcome is Ok { 0int } else { -1int }),
{
    match outcome {
        Ok(_) => 0,
        Err(_) => -1,
    }
}

/// The seek that tells where the stream stands: by zero bytes from the
/// current position.
pub fn tell_target() -> (target: SeekTarget)
    ensures
        target == SeekTarget::Current(0),
{
    SeekTarget::Current(0)
}

/// The answer of the tell callback: the position that the seek of
/// `tell_target` gave, taken as a signed number that keeps its bits, or -1
/// when the seek failed.
pub fn tell_status(outcome: &Result<u64, std::io::Error>) -> (position: i64)
    ensures
        position == (match *outcome {
            Ok(at) => at as i64,
            Err(_) => -1i64,
        }),
{
    match outcome {
        Ok(at) => *at as i64,
        Err(_) => -1,
    }
}

} // verus!
