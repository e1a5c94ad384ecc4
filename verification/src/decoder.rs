//! The decoder: what it keeps between the calls of the engine, and what it
//! decides when the engine or the stream has answered.

use crate::comment::Comment;
use crate::error::check_errors;
use crate::error::code_meaning;
use crate::error::failure_kind;
use crate::error::engine_eread;
use crate::error::is_failure_code;
use crate::error::is_known;
use crate::error::ov_eread;
use crate::error::VorbisError;
use crate::headers::comment_stops;
use crate::headers::error_of;
use crate::headers::fold_may_run;
use crate::headers::fold_reaches;
use crate::headers::is_first_stop;
use crate::headers::no_comment_stops;
use crate::headers::values_for;
use crate::headers::CommentsIter;
use crate::headers::Headers;
use crate::packet::decoded_samples;
use crate::packet::take_samples;
use crate::shim::fault_interrupted;
use crate::shim::fault_is_interrupted;
use crate::shim::ReadStep;
use vstd::pervasive::unreached;
use vstd::prelude::*;
use vstd::utf8::*;

verus! {

/// True when the stream answered a read with a fault that is an interrupted
/// call.
pub open spec fn outcome_interrupted(outcome: Result<usize, std::io::Error>) -> bool {
    outcome is Err && fault_interrupted(outcome->Err_0)
}

/// What a decoder is, as far as its answers depend on it.
pub struct DecoderView {
    /// The vendor text of the stream, as raw bytes.
    pub vendor: Seq<u8>,
    /// The comments of the stream, each as raw bytes, in the order of storage.
    pub comments: Seq<Seq<u8>>,
    /// The logical sub-stream that the last decode-read worked on.
    pub bitstream: i32,
    /// The fault of a read from the stream that has not been reported yet.
    pub read_error: Option<std::io::Error>,
    /// True while the engine holds resources for this decoder: from an open
    /// that went well until the decoder is closed.
    pub opened: bool,
}

/// What one decode-read came to.
#[derive(Debug)]
pub enum Decoded {
    /// The stream has ended: no item, and none after it.
    Finished,
    /// An error item.
    Failed(VorbisError),
    /// Samples were decoded: `data` holds them, and `bitstream` is the logical
    /// sub-stream they belong to, whose format the packet is to carry.
    Samples { data: Vec<i16>, bitstream: i32 },
}

/// The state of one decoding session.
pub struct Decoder {
    headers: Headers,
    current_logical_bitstream: i32,
    read_error: Option<std::io::Error>,
    opened: bool,
}

impl View for Decoder {
    type V = DecoderView;

    closed spec fn view(&self) -> DecoderView {
        DecoderView {
            vendor: self.headers.vendor(),
            comments: self.headers.comments(),
            bitstream: self.current_logical_bitstream,
            read_error: self.read_error,
            opened: self.opened,
        }
    }
}

impl DecoderView {
    /// The state of a decoder that has seen nothing yet.
    pub open spec fn fresh() -> DecoderView {
        DecoderView {
            vendor: seq![],
            comments: seq![],
            bitstream: 0,
            read_error: None,
            opened: false,
        }
    }

    /// The state after the stream has answered a read, where `interrupted`
    /// tells whether a fault was an interrupted call.
    pub open spec fn after_read(
        self,
        outcome: Result<usize, std::io::Error>,
        interrupted: bool,
    ) -> DecoderView {
        match outcome {
            Ok(_) => self,
            Err(fault) => if interrupted {
                self
            } else {
                DecoderView { read_error: Some(fault), ..self }
            },
        }
    }

    /// What the read callback does after the stream has answered.
    pub open spec fn read_step(
        self,
        outcome: Result<usize, std::io::Error>,
        interrupted: bool,
    ) -> ReadStep {
        match outcome {
            Ok(count) => ReadStep::Done(count),
            Err(_) => if interrupted {
                ReadStep::Retry
            } else {
                ReadStep::Done(0)
            },
        }
    }

    /// True when the engine's answer to the open call is one that
    /// `open_result` takes.
    pub open spec fn accepts_open(self, code: int) -> bool {
        code == 0 || is_failure_code(code) || (code == ov_eread() && self.read_error is Some)
    }

    /// What the open call came to.
    pub open spec fn open_result(self, code: int) -> Result<(), VorbisError> {
        if code == 0 {
            Ok(())
        } else if self.read_error is Some {
            Err(VorbisError::ReadError(self.read_error->0))
        } else {
            code_meaning(code)
        }
    }

    /// The state after the open call.
    pub open spec fn after_open(self, code: int) -> DecoderView {
        if code == 0 {
            DecoderView { opened: true, ..self }
        } else {
            DecoderView { read_error: None, ..self }
        }
    }

    /// The state after the decoder has been closed.
    pub open spec fn after_close(self) -> DecoderView {
        DecoderView { opened: false, ..self }
    }

    /// True when the engine's answer to a decode-read is one that
    /// `next_packet` takes.
    pub open spec fn accepts_read(code: int) -> bool {
        code >= 0 || is_failure_code(code)
    }

    /// The state after a decode-read that returned `code` and left
    /// `bitstream` as the active sub-stream.
    pub open spec fn after_packet(self, code: int, bitstream: i32) -> DecoderView {
        DecoderView {
            bitstream,
            read_error: if code == 0 {
                None
            } else {
                self.read_error
            },
            ..self
        }
    }

    /// What a decode-read came to, when it returned `code`, left `bitstream`
    /// as the active sub-stream and wrote to `buffer`.
    pub open spec fn packet_result(self, code: int, bitstream: i32, buffer: Seq<i16>) -> DecodedView {
        if code == 0 {
            match self.read_error {
                Some(fault) => DecodedView::Failed(VorbisError::ReadError(fault)),
                None => DecodedView::Finished,
            }
        } else if code < 0 {
            DecodedView::Failed(failure_kind(code))
        } else {
            DecodedView::Samples { data: decoded_samples(buffer, code), bitstream }
        }
    }
}

/// What one decode-read came to, with the samples as a sequence.
pub enum DecodedView {
    /// The stream has ended.
    Finished,
    /// An error item.
    Failed(VorbisError),
    /// Decoded samples and the logical sub-stream they belong to.
    Samples { data: Seq<i16>, bitstream: i32 },
}

impl View for Decoded {
    type V = DecodedView;

    open spec fn view(&self) -> DecodedView {
        match *self {
            Decoded::Finished => DecodedView::Finished,
            Decoded::Failed(error) => DecodedView::Failed(error),
            Decoded::Samples { data, bitstream } => DecodedView::Samples { data: data@, bitstream },
        }
    }
}

impl Decoder {
    /// A decoder before the engine has opened the stream: no headers, the
    /// first logical sub-stream, no fault waiting.
    pub fn new() -> (decoder: Decoder)
        ensures
            decoder@ == DecoderView::fresh(),
    {
        Decoder {
            headers: Headers::empty(),
            current_logical_bitstream: 0,
            read_error: None,
            opened: false,
        }
    }

    /// The logical sub-stream that the last decode-read worked on.
    pub fn current_logical_bitstream(&self) -> (bitstream: i32)
        ensures
            bitstream == self@.bitstream,
    {
        self.current_logical_bitstream
    }

    /// Takes the answer of the stream to one read of the read callback, where
    /// `interrupted` tells whether a fault was an interrupted call.
    ///
    /// A count of bytes goes to the engine as it is, also when it is less than
    /// was asked for. An interrupted call is tried again. Any other fault is
    /// kept for the next decode-read that sees the stream end, taking the place
    /// of a fault that was still waiting, and the engine is told of zero bytes.
    pub fn read_step(&mut self, outcome: Result<usize, std::io::Error>, interrupted: bool) -> (step:
        ReadStep)
        ensures
            step == old(self)@.read_step(outcome, interrupted),
            final(self)@ == old(self)@.after_read(outcome, interrupted),
    {
        match outcome {
            Ok(count) => ReadStep::Done(count),
            Err(fault) => {
                if interrupted {
                    ReadStep::Retry
                } else {
                    self.read_error = Some(fault);
                    ReadStep::Done(0)
                }
            },
        }
    }

    /// Takes the answer of the stream to one read of the read callback.
    ///
    /// Whether a fault is an interrupted call is for the fault to say, by its
    /// kind. A count of bytes goes to the engine as it is. A fault that is an
    /// interrupted call changes nothing, and the read is tried again. Any
    /// other fault is kept, in the place of a fault that was still waiting,
    /// and the engine is told of zero bytes.
    pub fn read_finished(&mut self, outcome: Result<usize, std::io::Error>) -> (step: ReadStep)
        ensures
            step == old(self)@.read_step(outcome, outcome_interrupted(outcome)),
            final(self)@ == old(self)@.after_read(outcome, outcome_interrupted(outcome)),
    {
        let interrupted = match &outcome {
            Ok(_) => false,
            Err(fault) => fault_is_interrupted(fault),
        };
        self.read_step(outcome, interrupted)
    }

    /// Tells whether `open_result` takes `code` in this state.
    pub fn accepts_open(&self, code: i32) -> (accepted: bool)
        ensures
            accepted == self@.accepts_open(code as int),
    {
        is_known(code) || (code == engine_eread() && self.read_error.is_some())
    }

    /// Takes the engine's answer to the open call.
    ///
    /// Zero opens the decoder: from now on the engine holds resources for it.
    /// On any other code the open has failed, and the engine holds nothing:
    /// with the fault of the stream, where a read failed while the engine went
    /// through the headers, and else with the kind that the code stands for. A
    /// fault that is reported no longer waits.
    pub fn open_result(&mut self, code: i32) -> (result: Result<(), VorbisError>)
        requires
            old(self)@.accepts_open(code as int),
        ensures
            result == old(self)@.open_result(code as int),
            final(self)@ == old(self)@.after_open(code as int),
            result is Ok <==> code == 0,
    {
        if code == 0 {
            self.opened = true;
            return Ok(());
        }
        match self.read_error.take() {
            Some(fault) => Err(VorbisError::ReadError(fault)),
            None => check_errors(code),
        }
    }

    /// Closes the decoder and tells whether the engine has resources to
    /// release for it. That is so once for every open that went well, however
    /// many packets were decoded, and never for a decoder that was not opened.
    pub fn close(&mut self) -> (release: bool)
        ensures
            release == old(self)@.opened,
            final(self)@ == old(self)@.after_close(),
    {
        let release = self.opened;
        self.opened = false;
        release
    }

    /// Takes the headers that the engine read when it opened the stream.
    pub fn set_headers(&mut self, headers: Headers)
        ensures
            final(self)@ == (DecoderView {
                vendor: headers.vendor(),
                comments: headers.comments(),
                ..old(self)@
            }),
    {
        self.headers = headers;
    }

    /// The vendor text of the stream.
    ///
    /// Fails with `CommentCharacter` exactly when the bytes of the vendor text
    /// are not well-formed UTF-8.
    pub fn vendor(&self) -> (result: Result<String, VorbisError>)
        ensures
            match result {
                Ok(text) => valid_utf8(self@.vendor) && text@ == decode_utf8(self@.vendor),
                Err(error) => !valid_utf8(self@.vendor) && error is CommentCharacter,
            },
    {
        self.headers.vendor_text()
    }

    /// The comment at `index`, counted from zero in the order of storage, or
    /// nothing where `index` is out of range.
    pub fn comment_at(&self, index: i32) -> (comment: Option<Comment<'_>>)
        ensures
            match comment {
                Some(found) => 0 <= index < self@.comments.len() && found@
                    == self@.comments[index as int],
                None => !(0 <= index < self@.comments.len()),
            },
    {
        self.headers.comment_at(index)
    }

    /// Tells whether `next_packet` takes `code`.
    pub fn accepts_read(code: i64) -> (accepted: bool)
        ensures
            accepted == DecoderView::accepts_read(code as int),
    {
        code >= 0 || (code >= -0x8000_0000 && is_known(code as i32))
    }

    /// Takes the engine's answer to one decode-read: the number `code` that it
    /// returned, the logical sub-stream `bitstream` that it left as the active
    /// one, and the `buffer` that it wrote to.
    ///
    /// Zero is the end of the stream, unless the fault of a read is waiting:
    /// then that fault is the item, once, and it waits no longer. A negative
    /// code is an error item of the kind that the code stands for. A positive
    /// code is a number of bytes: the buffer is cut down to the samples that
    /// they hold, two bytes each.
    pub fn next_packet(&mut self, code: i64, bitstream: i32, buffer: Vec<i16>) -> (item: Decoded)
        requires
            DecoderView::accepts_read(code as int),
        ensures
            item@ == old(self)@.packet_result(code as int, bitstream, buffer@),
            final(self)@ == old(self)@.after_packet(code as int, bitstream),
    {
        self.current_logical_bitstream = bitstream;
        if code == 0 {
            match self.read_error.take() {
                Some(fault) => Decoded::Failed(VorbisError::ReadError(fault)),
                None => Decoded::Finished,
            }
        } else if code < 0 {
            match check_errors(code as i32) {
                Err(error) => Decoded::Failed(error),
                Ok(_) => unreached(),
            }
        } else {
            Decoded::Samples { data: take_samples(buffer, code), bitstream }
        }
    }

    /// A cursor over the comments, in the order of storage. Each call starts
    /// a new cursor at the first comment; the decoder is only read.
    pub fn comments(&self) -> (cursor: CommentsIter<'_>)
        ensures
            cursor@ == self@.comments,
    {
        self.headers.cursor()
    }

    /// The values of all comments whose key is `key`, byte for byte, as text
    /// and in the order of storage. Values that occur twice are kept twice.
    ///
    /// The comments are read in turn, and the first one that cannot be read
    /// ends the call: with `CommentFormat` where a comment holds no `=`, with
    /// `CommentCharacter` where the key is `key` and the value is not
    /// well-formed UTF-8. Nothing is returned of the comments before it.
    pub fn get_comment(&self, key: &str) -> (result: Result<Vec<String>, VorbisError>)
        ensures
            match result {
                Ok(values) => no_comment_stops(self@.comments, encode_utf8(key@))
                    && values.deep_view() == values_for(self@.comments, encode_utf8(key@)),
                Err(error) => exists|at: int|
                    #[trigger] is_first_stop(self@.comments, encode_utf8(key@), at) && error_of(
                        self@.comments[at],
                        error,
                    ),
            },
    {
        let key_bytes = key.as_bytes();
        let ghost wanted = encode_utf8(key@);
        let ghost all = self@.comments;
        let mut values: Vec<String> = Vec::new();
        let mut cursor = self.comments();
        let ghost mut seen: int = 0;
        loop
            invariant
                all == self@.comments,
                wanted == encode_utf8(key@),
                key_bytes@ == wanted,
                0 <= seen <= all.len(),
                cursor@ == all.skip(seen),
                no_comment_stops(all.take(seen), wanted),
                values.deep_view() == values_for(all.take(seen), wanted),
            ensures
                seen == all.len(),
                no_comment_stops(all.take(seen), wanted),
                values.deep_view() == values_for(all.take(seen), wanted),
            decreases all.len() - seen,
        {
            let comment = match cursor.next() {
                Some(comment) => comment,
                None => {
                    break ;
                },
            };
            let ghost part = all.take(seen + 1);
            assert(part.drop_last() =~= all.take(seen));
            let found = match comment.has_key(key_bytes) {
                Ok(found) => found,
                Err(error) => {
                    assert(is_first_stop(all, wanted, seen));
                    return Err(error);
                },
            };
            if found {
                let text = match comment.value() {
                    Ok(text) => text,
                    Err(error) => {
                        assert(is_first_stop(all, wanted, seen));
                        return Err(error);
                    },
                };
                let ghost before = values.deep_view();
                values.push(text);
                assert(values.deep_view() =~= before.push(text@));
            }
            assert(values.deep_view() =~= values_for(part, wanted));
            assert(no_comment_stops(part, wanted)) by {
                assert forall|i: int| 0 <= i < part.len() implies !comment_stops(
                    #[trigger] part[i],
                    wanted,
                ) by {
                    if i < seen {
                        assert(all.take(seen)[i] == part[i]);
                    }
                }
            }
            assert(cursor@ =~= all.skip(seen + 1));
            proof {
                seen = seen + 1;
            }
        }
        assert(all.take(seen) =~= all);
        Ok(values)
    }

    /// Folds the comments from first to last: starts from `acc` and hands
    /// each comment, with what came of those before it, to `f`.
    pub fn fold_comments<F, T>(&self, acc: T, f: F) -> (out: T) where F: Fn(T, &Comment) -> T
        requires
            fold_may_run(f, self@.comments, acc),
        ensures
            fold_reaches(f, self@.comments, acc, out),
    {
        let ghost seed = acc;
        let mut acc = acc;
        let count = self.headers.len();
        let mut i: i32 = 0;
        while i < count
            invariant
                0 <= i <= count,
                count == self@.comments.len(),
                fold_may_run(f, self@.comments, seed),
                fold_reaches(f, self@.comments.take(i as int), seed, acc),
            decreases count - i,
        {
            let comment = self.headers.comment_at(i).unwrap();
            proof {
                use_type_invariant(&comment);
            }
            acc = f(acc, &comment);
            proof {
                let part = self@.comments.take(i + 1);
                assert(part.drop_last() =~= self@.comments.take(i as int));
            }
            i += 1;
        }
        assert(self@.comments.take(i as int) =~= self@.comments);
        acc
    }
}

/// A fault of the stream is reported exactly once.
///
/// When a read fails and the fault is no interrupted call, the engine is told
/// of zero bytes. The next decode-read that returns zero then gives that
/// fault as a read error, and the one after it, if it returns zero too, gives
/// the end of the stream.
pub proof fn law_fault_is_reported_once(
    state: DecoderView,
    fault: std::io::Error,
    bitstream: i32,
    buffer: Seq<i16>,
    later_bitstream: i32,
    later_buffer: Seq<i16>,
)
    ensures
        state.read_step(Err(fault), false) == ReadStep::Done(0),
        state.after_read(Err(fault), false).packet_result(0, bitstream, buffer)
            == DecodedView::Failed(VorbisError::ReadError(fault)),
        state.after_read(Err(fault), false).after_packet(0, bitstream).packet_result(
            0,
            later_bitstream,
            later_buffer,
        ) == DecodedView::Finished,
{
}

/// The resources of the engine are released exactly once.
///
/// A decoder that was opened is told to release them when it is closed,
/// whether or not anything was read or decoded in between, and is not told so
/// again when it is closed once more. A decoder whose open failed, or that was
/// never opened, is not told to release anything.
pub proof fn law_released_once(
    state: DecoderView,
    refused: int,
    outcome: Result<usize, std::io::Error>,
    interrupted: bool,
    code: int,
    bitstream: i32,
)
    requires
        refused != 0,
    ensures
        !DecoderView::fresh().opened,
        state.after_open(0).opened,
        state.after_open(refused).opened == state.opened,
        state.after_read(outcome, interrupted).opened == state.opened,
        state.after_packet(code, bitstream).opened == state.opened,
        !state.after_close().opened,
{
}

/// What the read callback does with each answer of the stream: a count of
/// bytes is handed on and nothing is kept; a fault that is an interrupted call
/// is tried again and nothing is kept; any other fault is kept, and zero bytes
/// are handed on.
pub proof fn law_read_answers(state: DecoderView, count: usize, fault: std::io::Error)
    ensures
        state.read_step(Ok(count), outcome_interrupted(Ok(count))) == ReadStep::Done(count),
        state.after_read(Ok(count), outcome_interrupted(Ok(count))) == state,
        fault_interrupted(fault) ==> state.read_step(Err(fault), outcome_interrupted(Err(fault)))
            == ReadStep::Retry && state.after_read(Err(fault), outcome_interrupted(Err(fault)))
            == state,
        !fault_interrupted(fault) ==> state.read_step(
            Err(fault),
            outcome_interrupted(Err(fault)),
        ) == ReadStep::Done(0) && state.after_read(
            Err(fault),
            outcome_interrupted(Err(fault)),
        ).read_error == Some(fault),
{
}

/// One fault waits at a time: a fault that comes while another waits takes
/// its place, and an interrupted call or a read that went well changes
/// nothing.
pub proof fn law_one_fault_waits(
    state: DecoderView,
    first: std::io::Error,
    second: std::io::Error,
    count: usize,
)
    ensures
        state.after_read(Err(first), false).after_read(Err(second), false).read_error == Some(
            second,
        ),
        state.after_read(Err(first), true) == state,
        state.after_read(Ok(count), false) == state,
        state.after_read(Ok(count), true) == state,
{
}

/// The headers stay as they are: no answer of the stream or of the engine
/// changes the vendor text or the comments, so that reading the comments
/// again gives the same comments in the same order.
pub proof fn law_headers_stay(
    state: DecoderView,
    outcome: Result<usize, std::io::Error>,
    interrupted: bool,
    code: int,
    bitstream: i32,
)
    ensures
        state.after_read(outcome, interrupted).comments == state.comments,
        state.after_read(outcome, interrupted).vendor == state.vendor,
        state.after_open(code).comments == state.comments,
        state.after_open(code).vendor == state.vendor,
        state.after_packet(code, bitstream).comments == state.comments,
        state.after_packet(code, bitstream).vendor == state.vendor,
{
}

/// The active sub-stream changes in a decode-read and nowhere else: there it
/// becomes what the engine left, and the answers of the stream and of the open
/// call keep it.
pub proof fn law_active_sub_stream(
    state: DecoderView,
    outcome: Result<usize, std::io::Error>,
    interrupted: bool,
    code: int,
    bitstream: i32,
)
    ensures
        DecoderView::fresh().bitstream == 0,
        state.after_read(outcome, interrupted).bitstream == state.bitstream,
        state.after_open(code).bitstream == state.bitstream,
        state.after_packet(code, bitstream).bitstream == bitstream,
{
}

/// What kind of item a decode-read gives: samples on a positive code, an
/// error on a negative code and on zero where a fault waits, and the end of
/// the stream on zero where none waits. So a stream that never fails ends
/// without an error item.
pub proof fn law_kind_of_item(state: DecoderView, code: int, bitstream: i32, buffer: Seq<i16>)
    requires
        DecoderView::accepts_read(code),
    ensures
        state.packet_result(code, bitstream, buffer) is Samples <==> code > 0,
        state.packet_result(code, bitstream, buffer) is Failed <==> code < 0 || (code == 0
            && state.read_error is Some),
        state.packet_result(code, bitstream, buffer) is Finished <==> code == 0
            && state.read_error is None,
        state.packet_result(code, bitstream, buffer) matches DecodedView::Failed(error)
            ==> (error is ReadError <==> code == 0),
{
}

/// An open that the engine refused gives no decoder: every code but zero is an
/// error, a read error where a fault of the stream waits, and else one of the
/// five kinds that the codes stand for.
pub proof fn law_refused_open(state: DecoderView, code: int)
    requires
        state.accepts_open(code),
        code != 0,
    ensures
        state.open_result(code) is Err,
        state.read_error is Some ==> state.open_result(code) == Err::<(), VorbisError>(
            VorbisError::ReadError(state.read_error->0),
        ),
        state.read_error is None ==> {
            let error = state.open_result(code)->Err_0;
            error is NotVorbis || error is VersionMismatch || error is BadHeader
                || error is InitialFileHeadersCorrupt || error is Hole
        },
{
}

} // verus!
