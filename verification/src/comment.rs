//! Comments of a stream: `KEY=VALUE` tags kept as raw bytes.

use crate::error::VorbisError;
use crate::text::ascii_text;
use crate::text::bytes_equal;
use crate::text::decode_text;
use crate::text::lemma_ascii_is_utf8;
use vstd::prelude::*;
use vstd::slice::slice_subrange;
use vstd::slice::slice_to_vec;
use vstd::utf8::*;

verus! {

/// The byte that parts the key of a comment from its value: `=`.
pub const SEPARATOR: u8 = 0x3D;

/// True when `at` is the place of the first `=` in `bytes`.
pub open spec fn is_separator_at(bytes: Seq<u8>, at: int) -> bool {
    &&& 0 <= at < bytes.len()
    &&& bytes[at] == SEPARATOR
    &&& forall|j: int| 0 <= j < at ==> bytes[j] != SEPARATOR
}

/// True when `bytes` holds a `=`.
pub open spec fn has_separator(bytes: Seq<u8>) -> bool {
    exists|at: int| is_separator_at(bytes, at)
}

/// The place of the first `=` in `bytes`, where there is one.
pub open spec fn separator(bytes: Seq<u8>) -> int
    recommends
        has_separator(bytes),
{
    choose|at: int| is_separator_at(bytes, at)
}

/// The bytes before the first `=`.
pub open spec fn key_part(bytes: Seq<u8>) -> Seq<u8>
    recommends
        has_separator(bytes),
{
    bytes.subrange(0, separator(bytes))
}

/// The bytes after the first `=`.
pub open spec fn value_part(bytes: Seq<u8>) -> Seq<u8>
    recommends
        has_separator(bytes),
{
    bytes.subrange(separator(bytes) + 1, bytes.len() as int)
}

/// A byte that may stand in a key: printable ASCII up to `}`, without `=`.
pub open spec fn is_key_byte(byte: u8) -> bool {
    0x20 <= byte <= 0x7D && byte != SEPARATOR
}

/// True when every byte of `key` may stand in a key.
pub open spec fn is_valid_key(key: Seq<u8>) -> bool {
    forall|i: int| 0 <= i < key.len() ==> is_key_byte(#[trigger] key[i])
}

/// The first `=` of a byte string is at one place only.
pub proof fn lemma_separator_unique(bytes: Seq<u8>, at: int)
    requires
        is_separator_at(bytes, at),
    ensures
        has_separator(bytes),
        separator(bytes) == at,
{
    let chosen = separator(bytes);
    assert(is_separator_at(bytes, chosen));
    if chosen < at {
        assert(bytes[chosen] != SEPARATOR);
    }
    if at < chosen {
        assert(bytes[at] != SEPARATOR);
    }
}

/// A key without `=`, a `=` and a value make a comment with that key and
/// that value.
pub proof fn law_key_and_value(key: Seq<u8>, value: Seq<u8>)
    requires
        forall|j: int| 0 <= j < key.len() ==> key[j] != SEPARATOR,
    ensures
        has_separator(key + seq![SEPARATOR] + value),
        key_part(key + seq![SEPARATOR] + value) == key,
        value_part(key + seq![SEPARATOR] + value) == value,
{
    let raw = key + seq![SEPARATOR] + value;
    assert(is_separator_at(raw, key.len() as int));
    lemma_separator_unique(raw, key.len() as int);
    assert(key_part(raw) =~= key);
    assert(value_part(raw) =~= value);
}

/// One comment of a stream: a view of its raw bytes.
///
/// The comment borrows the bytes and remembers where their first `=` stands.
pub struct Comment<'a> {
    bytes: &'a [u8],
    sep_pos: Option<usize>,
}

impl<'a> View for Comment<'a> {
    type V = Seq<u8>;

    /// The raw bytes of the comment.
    closed spec fn view(&self) -> Seq<u8> {
        self.bytes@
    }
}

impl<'a> Comment<'a> {
    /// True when the comment remembers the place of the first `=` of its
    /// bytes, or that there is none. It holds of every comment in executable
    /// code.
    #[verifier::type_invariant]
    pub closed spec fn well_formed(&self) -> bool {
        match self.sep_pos {
            Some(at) => is_separator_at(self.bytes@, at as int),
            None => !has_separator(self.bytes@),
        }
    }

    /// Reads a comment from its raw bytes.
    pub fn new(bytes: &'a [u8]) -> (comment: Comment<'a>)
        ensures
            comment@ == bytes@,
    {
        let mut i: usize = 0;
        while i < bytes.len()
            invariant
                i <= bytes.len(),
                forall|j: int| 0 <= j < i ==> bytes@[j] != SEPARATOR,
            decreases bytes.len() - i,
        {
            if bytes[i] == SEPARATOR {
                return Comment { bytes, sep_pos: Some(i) };
            }
            i += 1;
        }
        Comment { bytes, sep_pos: None }
    }

    /// A copy of the raw bytes. This never fails, whatever the bytes are.
    pub fn bytes(&self) -> (copy: Vec<u8>)
        ensures
            copy@ == self@,
    {
        slice_to_vec(self.bytes)
    }

    /// The bytes of the key: those before the first `=`.
    ///
    /// Fails with `CommentFormat` exactly when the comment holds no `=`.
    pub fn key_bytes(&self) -> (result: Result<&[u8], VorbisError>)
        ensures
            match result {
                Ok(key) => has_separator(self@) && key@ == key_part(self@),
                Err(error) => !has_separator(self@) && error == VorbisError::CommentFormat,
            },
    {
        proof {
            use_type_invariant(self);
        }
        match self.sep_pos {
            Some(at) => {
                proof {
                    lemma_separator_unique(self.bytes@, at as int);
                }
                Ok(slice_subrange(self.bytes, 0, at))
            },
            None => Err(VorbisError::CommentFormat),
        }
    }

    /// The bytes of the value: those after the first `=`.
    ///
    /// Fails with `CommentFormat` exactly when the comment holds no `=`.
    pub fn value_bytes(&self) -> (result: Result<&[u8], VorbisError>)
        ensures
            match result {
                Ok(value) => has_separator(self@) && value@ == value_part(self@),
                Err(error) => !has_separator(self@) && error == VorbisError::CommentFormat,
            },
    {
        proof {
            use_type_invariant(self);
        }
        match self.sep_pos {
            Some(at) => {
                proof {
                    lemma_separator_unique(self.bytes@, at as int);
                }
                let end = self.bytes.len();
                Ok(slice_subrange(self.bytes, at + 1, end))
            },
            None => Err(VorbisError::CommentFormat),
        }
    }

    /// Tells whether the key is `key`, byte for byte.
    ///
    /// Fails with `CommentFormat` exactly when the comment holds no `=`.
    pub fn has_key(&self, key: &[u8]) -> (result: Result<bool, VorbisError>)
        ensures
            match result {
                Ok(same) => has_separator(self@) && same == (key_part(self@) == key@),
                Err(error) => !has_separator(self@) && error == VorbisError::CommentFormat,
            },
    {
        match self.key_bytes() {
            Ok(own) => Ok(bytes_equal(own, key)),
            Err(error) => Err(error),
        }
    }

    /// The key as text.
    ///
    /// Fails with `CommentFormat` exactly when the comment holds no `=` or a
    /// byte of the key is not allowed. A valid key is ASCII, so its text has
    /// one character per byte.
    pub fn key(&self) -> (result: Result<String, VorbisError>)
        ensures
            match result {
                Ok(text) => has_separator(self@) && is_valid_key(key_part(self@)) && text@
                    == ascii_text(key_part(self@)),
                Err(error) => !(has_separator(self@) && is_valid_key(key_part(self@))) && error
                    == VorbisError::CommentFormat,
            },
    {
        let key = match self.key_bytes() {
            Ok(key) => key,
            Err(error) => {
                return Err(error);
            },
        };
        let mut i: usize = 0;
        while i < key.len()
            invariant
                i <= key.len(),
                key@ == key_part(self@),
                forall|j: int| 0 <= j < i ==> is_key_byte(#[trigger] key@[j]),
            decreases key.len() - i,
        {
            let byte = key[i];
            if byte < 0x20 || byte > 0x7D || byte == SEPARATOR {
                assert(!is_key_byte(key@[i as int]));
                return Err(VorbisError::CommentFormat);
            }
            i += 1;
        }
        proof {
            lemma_ascii_is_utf8(key@);
        }
        let decoded = String::from_utf8(slice_to_vec(key));
        let text = decoded.unwrap();
        proof {
            encode_utf8_decode_utf8(text@);
        }
        Ok(text)
    }

    /// The value as text.
    ///
    /// Fails with `CommentFormat` exactly when the comment holds no `=`, and
    /// with `CommentCharacter` exactly when it holds one and the bytes after it
    /// are not well-formed UTF-8.
    pub fn value(&self) -> (result: Result<String, VorbisError>)
        ensures
            match result {
                Ok(text) => has_separator(self@) && valid_utf8(value_part(self@)) && text@
                    == decode_utf8(value_part(self@)),
                Err(error) => if has_separator(self@) {
                    !valid_utf8(value_part(self@)) && error is CommentCharacter
                } else {
                    error == VorbisError::CommentFormat
                },
            },
    {
        match self.value_bytes() {
            Ok(value) => decode_text(value),
            Err(error) => Err(error),
        }
    }
}

} // verus!
