//! Failure kinds, and the mapping from the engine's result codes to them.

use vstd::prelude::*;

verus! {

/// `std::io::Error`, the fault of a read or a seek on the stream. Nothing is
/// claimed of what it holds: it is carried from the stream to the caller.
#[verifier::external_type_specification]
#[verifier::external_body]
pub struct ExIoError(std::io::Error);

/// `std::string::FromUtf8Error`, the fault of decoding bytes that are not
/// UTF-8. Nothing is claimed of what it holds: it is carried to the caller.
#[verifier::external_type_specification]
#[verifier::external_body]
pub struct ExFromUtf8Error(std::string::FromUtf8Error);

/// Errors that can happen while decoding.
#[derive(Debug)]
pub enum VorbisError {
    /// A read from the byte stream failed.
    ReadError(std::io::Error),
    /// The stream holds no Vorbis data.
    NotVorbis,
    /// The stream was written for another version of the format.
    VersionMismatch,
    /// A bitstream header is invalid.
    BadHeader,
    /// The headers at the start of the stream are corrupt.
    InitialFileHeadersCorrupt,
    /// The data was interrupted: a gap or a discontinuity.
    Hole,
    /// A comment has no `=` separator, or a byte in its key is not allowed.
    CommentFormat,
    /// The value of a comment is not UTF-8 text.
    CommentCharacter(std::string::FromUtf8Error),
}

/// The engine's code for "done, no error".
pub open spec fn ov_ok() -> int {
    0
}

/// The engine's code for an interruption in the data.
pub open spec fn ov_hole() -> int {
    -3
}

/// The engine's code for corrupt initial headers.
pub open spec fn ov_einval() -> int {
    -131
}

/// The engine's code for a stream without Vorbis data.
pub open spec fn ov_enotvorbis() -> int {
    -132
}

/// The engine's code for an invalid bitstream header.
pub open spec fn ov_ebadheader() -> int {
    -133
}

/// The engine's code for a version mismatch.
pub open spec fn ov_eversion() -> int {
    -134
}

/// The engine's code for a failed read from the stream.
pub open spec fn ov_eread() -> int {
    -128
}

/// The codes that stand for a failure this layer reports as a value.
pub open spec fn is_failure_code(code: int) -> bool {
    code == ov_enotvorbis() || code == ov_eversion() || code == ov_ebadheader() || code
        == ov_einval() || code == ov_hole()
}

/// The codes this layer accepts from the engine: success and the reportable
/// failures. Every other code is a broken contract between engine and layer.
pub open spec fn is_known_code(code: int) -> bool {
    code == ov_ok() || is_failure_code(code)
}

/// The kind of failure that a failure code stands for.
pub open spec fn failure_kind(code: int) -> VorbisError
    recommends
        is_failure_code(code),
{
    if code == ov_enotvorbis() {
        VorbisError::NotVorbis
    } else if code == ov_eversion() {
        VorbisError::VersionMismatch
    } else if code == ov_ebadheader() {
        VorbisError::BadHeader
    } else if code == ov_einval() {
        VorbisError::InitialFileHeadersCorrupt
    } else {
        VorbisError::Hole
    }
}

/// What a known code means: success, or a failure of its kind.
pub open spec fn code_meaning(code: int) -> Result<(), VorbisError>
    recommends
        is_known_code(code),
{
    if code == ov_ok() {
        Ok(())
    } else {
        Err(failure_kind(code))
    }
}

/// Reads the constant `vorbis_sys::OV_ENOTVORBIS`. The contract claims its
/// value, -132.
#[verifier::external_body]
fn engine_enotvorbis() -> (code: i32)
    ensures
        code == ov_enotvorbis(),
{
    vorbis_sys::OV_ENOTVORBIS
}

/// Reads the constant `vorbis_sys::OV_EVERSION`. The contract claims its
/// value, -134.
#[verifier::external_body]
fn engine_eversion() -> (code: i32)
    ensures
        code == ov_eversion(),
{
    vorbis_sys::OV_EVERSION
}

/// Reads the constant `vorbis_sys::OV_EBADHEADER`. The contract claims its
/// value, -133.
#[verifier::external_body]
fn engine_ebadheader() -> (code: i32)
    ensures
        code == ov_ebadheader(),
{
    vorbis_sys::OV_EBADHEADER
}

/// Reads the constant `vorbis_sys::OV_EINVAL`. The contract claims its value,
/// -131.
#[verifier::external_body]
fn engine_einval() -> (code: i32)
    ensures
        code == ov_einval(),
{
    vorbis_sys::OV_EINVAL
}

/// Reads the constant `vorbis_sys::OV_HOLE`. The contract claims its value,
/// -3.
#[verifier::external_body]
fn engine_hole() -> (code: i32)
    ensures
        code == ov_hole(),
{
    vorbis_sys::OV_HOLE
}

/// Reads the constant `vorbis_sys::OV_EREAD`. The contract claims its value,
/// -128.
#[verifier::external_body]
pub(crate) fn engine_eread() -> (code: i32)
    ensures
        code == ov_eread(),
{
    vorbis_sys::OV_EREAD
}

/// Tells whether `code` is one that `check_errors` accepts.
pub fn is_known(code: i32) -> (known: bool)
    ensures
        known == is_known_code(code as int),
{
    code == 0 || code == engine_enotvorbis() || code == engine_eversion() || code
        == engine_ebadheader() || code == engine_einval() || code == engine_hole()
}

/// Turns a result code of the engine into a result of this layer.
///
/// Zero is success; each failure code gives its kind. The caller keeps every
/// other code away: the engine's internal-fault code and codes unknown to this
/// layer end the process and are never turned into a value.
pub fn check_errors(code: i32) -> (result: Result<(), VorbisError>)
    requires
        is_known_code(code as int),
    ensures
        result == code_meaning(code as int),
        result is Ok <==> code == 0,
{
    if code == 0 {
        Ok(())
    } else if code == engine_enotvorbis() {
        Err(VorbisError::NotVorbis)
    } else if code == engine_eversion() {
        Err(VorbisError::VersionMismatch)
    } else if code == engine_ebadheader() {
        Err(VorbisError::BadHeader)
    } else if code == engine_einval() {
        Err(VorbisError::InitialFileHeadersCorrupt)
    } else {
        Err(VorbisError::Hole)
    }
}

/// The kind of an error, without what the error carries.
#[derive(Clone, Copy, Debug, PartialEq, Eq, Structural)]
pub enum ErrorKind {
    ReadError,
    NotVorbis,
    VersionMismatch,
    BadHeader,
    InitialFileHeadersCorrupt,
    Hole,
    CommentFormat,
    CommentCharacter,
}

impl ErrorKind {
    /// The text that `description` returns, by kind.
    pub open spec fn description_text(self) -> Seq<char> {
        match self {
            ErrorKind::ReadError => "A read from media returned an error"@,
            ErrorKind::NotVorbis => "Bitstream does not contain any Vorbis data"@,
            ErrorKind::VersionMismatch => "Vorbis version mismatch"@,
            ErrorKind::BadHeader => "Invalid Vorbis bitstream header"@,
            ErrorKind::InitialFileHeadersCorrupt => "Initial file headers are corrupt"@,
            ErrorKind::Hole => "Interruption of data"@,
            ErrorKind::CommentCharacter => "Invalid Vorbis comment character encoding"@,
            ErrorKind::CommentFormat => "Invalid Vorbis comment format"@,
        }
    }

    /// A short text for the kind of error.
    pub fn description(self) -> (text: &'static str)
        ensures
            text@ == self.description_text(),
    {
        match self {
            ErrorKind::ReadError => "A read from media returned an error",
            ErrorKind::NotVorbis => "Bitstream does not contain any Vorbis data",
            ErrorKind::VersionMismatch => "Vorbis version mismatch",
            ErrorKind::BadHeader => "Invalid Vorbis bitstream header",
            ErrorKind::InitialFileHeadersCorrupt => "Initial file headers are corrupt",
            ErrorKind::Hole => "Interruption of data",
            ErrorKind::CommentCharacter => "Invalid Vorbis comment character encoding",
            ErrorKind::CommentFormat => "Invalid Vorbis comment format",
        }
    }
}

impl VorbisError {
    /// The kind of the error.
    pub open spec fn kind_of(&self) -> ErrorKind {
        match self {
            VorbisError::ReadError(_) => ErrorKind::ReadError,
            VorbisError::NotVorbis => ErrorKind::NotVorbis,
            VorbisError::VersionMismatch => ErrorKind::VersionMismatch,
            VorbisError::BadHeader => ErrorKind::BadHeader,
            VorbisError::InitialFileHeadersCorrupt => ErrorKind::InitialFileHeadersCorrupt,
            VorbisError::Hole => ErrorKind::Hole,
            VorbisError::CommentFormat => ErrorKind::CommentFormat,
            VorbisError::CommentCharacter(_) => ErrorKind::CommentCharacter,
        }
    }

    /// The kind of the error.
    pub fn kind(&self) -> (kind: ErrorKind)
        ensures
            kind == self.kind_of(),
    {
        match self {
            VorbisError::ReadError(_) => ErrorKind::ReadError,
            VorbisError::NotVorbis => ErrorKind::NotVorbis,
            VorbisError::VersionMismatch => ErrorKind::VersionMismatch,
            VorbisError::BadHeader => ErrorKind::BadHeader,
            VorbisError::InitialFileHeadersCorrupt => ErrorKind::InitialFileHeadersCorrupt,
            VorbisError::Hole => ErrorKind::Hole,
            VorbisError::CommentFormat => ErrorKind::CommentFormat,
            VorbisError::CommentCharacter(_) => ErrorKind::CommentCharacter,
        }
    }

    /// The text that `description` returns: that of the kind of the error.
    pub open spec fn description_text(&self) -> Seq<char> {
        self.kind_of().description_text()
    }

    /// A short text for the kind of error.
    pub fn description(&self) -> (text: &'static str)
        ensures
            text@ == self.description_text(),
    {
        self.kind().description()
    }
}

impl From<std::io::Error> for VorbisError {
    fn from(err: std::io::Error) -> (error: VorbisError) {
        VorbisError::ReadError(err)
    }
}

impl vstd::std_specs::convert::FromSpecImpl<std::io::Error> for VorbisError {
    open spec fn obeys_from_spec() -> bool {
        true
    }

    open spec fn from_spec(err: std::io::Error) -> VorbisError {
        VorbisError::ReadError(err)
    }
}

impl From<std::string::FromUtf8Error> for VorbisError {
    fn from(err: std::string::FromUtf8Error) -> (error: VorbisError) {
        VorbisError::CommentCharacter(err)
    }
}

impl vstd::std_specs::convert::FromSpecImpl<std::string::FromUtf8Error> for VorbisError {
    open spec fn obeys_from_spec() -> bool {
        true
    }

    open spec fn from_spec(err: std::string::FromUtf8Error) -> VorbisError {
        VorbisError::CommentCharacter(err)
    }
}

} // verus!
