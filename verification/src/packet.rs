//! Packets: decoded samples with the format of the sub-stream they came from.

use vstd::prelude::*;

verus! {

/// Number of sample slots in the buffer of one decode-read.
pub const BUFFER_SAMPLES: usize = 2048;

/// Number of bytes in one sample: samples are 16 bits wide.
pub const SAMPLE_BYTES: usize = 2;

/// What the engine tells of one logical sub-stream, as the engine holds it.
#[derive(Clone, Copy, Debug)]
pub struct StreamInfo {
    pub channels: i32,
    pub rate: i64,
    pub bitrate_upper: i64,
    pub bitrate_nominal: i64,
    pub bitrate_lower: i64,
    pub bitrate_window: i64,
}

/// Packet of data.
///
/// Each sample is an `i16`. The channels are interleaved in the data: with two
/// channels, a sample of channel 1 is followed by a sample of channel 2, then
/// by a sample of channel 1, and so on.
#[derive(Clone, Debug)]
pub struct Packet {
    pub data: Vec<i16>,
    pub channels: u16,
    pub rate: u64,
    pub bitrate_upper: u64,
    pub bitrate_nominal: u64,
    pub bitrate_lower: u64,
    pub bitrate_window: u64,
}

/// What is handed to the engine for one decode-read.
#[derive(Debug)]
pub struct ReadRequest {
    /// The buffer the engine fills.
    pub buffer: Vec<i16>,
    /// The size of the buffer in bytes.
    pub length: i32,
    /// Zero asks for little-endian samples.
    pub bigendianp: i32,
    /// The width of a sample in bytes.
    pub word: i32,
    /// One asks for signed samples.
    pub sgned: i32,
}

/// The buffer of a decode-read before the engine has written to it.
pub open spec fn empty_buffer() -> Seq<i16> {
    Seq::new(BUFFER_SAMPLES as nat, |i: int| 0i16)
}

/// The number of whole samples in `bytes` bytes, as far as `capacity` slots
/// hold them.
pub open spec fn sample_count(bytes: int, capacity: int) -> int {
    if bytes / 2 < capacity {
        bytes / 2
    } else {
        capacity
    }
}

/// The samples that a decode-read left in `buffer` when it produced `bytes`
/// bytes.
pub open spec fn decoded_samples(buffer: Seq<i16>, bytes: int) -> Seq<i16> {
    buffer.subrange(0, sample_count(bytes, buffer.len() as int))
}

/// Prepares one decode-read: a zeroed buffer of `BUFFER_SAMPLES` slots, its
/// size in bytes, and the selectors for signed 16-bit little-endian samples.
pub fn read_request() -> (request: ReadRequest)
    ensures
        request.buffer@ == empty_buffer(),
        request.length == BUFFER_SAMPLES * SAMPLE_BYTES,
        request.bigendianp == 0,
        request.word == SAMPLE_BYTES,
        request.sgned == 1,
{
    let buffer: Vec<i16> = vec![0i16; BUFFER_SAMPLES];
    assert(buffer@ =~= empty_buffer());
    let length: i32 = (buffer.len() * SAMPLE_BYTES) as i32;
    ReadRequest { buffer, length, bigendianp: 0, word: SAMPLE_BYTES as i32, sgned: 1 }
}

/// Cuts `buffer` down to the samples that `bytes` bytes hold.
pub fn take_samples(buffer: Vec<i16>, bytes: i64) -> (data: Vec<i16>)
    requires
        bytes > 0,
    ensures
        data@ == decoded_samples(buffer@, bytes as int),
{
    let mut data = buffer;
    let samples: u64 = (bytes as u64) / 2;
    if samples < data.len() as u64 {
        data.truncate(samples as usize);
    }
    assert(data@ =~= decoded_samples(buffer@, bytes as int));
    data
}

impl Packet {
    /// Stamps decoded samples with the format of their sub-stream.
    ///
    /// Each number of `info` is carried over into the unsigned field of the
    /// packet by a cast that keeps its low bits.
    pub fn new(data: Vec<i16>, info: &StreamInfo) -> (packet: Packet)
        ensures
            packet.data == data,
            packet.channels == info.channels as u16,
            packet.rate == info.rate as u64,
            packet.bitrate_upper == info.bitrate_upper as u64,
            packet.bitrate_nominal == info.bitrate_nominal as u64,
            packet.bitrate_lower == info.bitrate_lower as u64,
            packet.bitrate_window == info.bitrate_window as u64,
    {
        Packet {
            data,
            channels: info.channels as u16,
            rate: info.rate as u64,
            bitrate_upper: info.bitrate_upper as u64,
            bitrate_nominal: info.bitrate_nominal as u64,
            bitrate_lower: info.bitrate_lower as u64,
            bitrate_window: info.bitrate_window as u64,
        }
    }
}

} // verus!
