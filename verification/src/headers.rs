//! The headers of a stream: its vendor text and its list of comments.

use crate::comment::has_separator;
use crate::comment::key_part;
use crate::comment::value_part;
use crate::comment::Comment;
use crate::error::VorbisError;
use crate::text::decode_text;
use vstd::prelude::*;
use vstd::utf8::*;

verus! {

/// The headers that the engine reads when it opens a stream: the vendor text
/// and the comments of the first logical sub-stream, in the order of storage.
///
/// The engine counts its comments in a C `int`, and so do the headers: they
/// never hold more than `i32::MAX` comments.
pub struct Headers {
    vendor: Vec<u8>,
    comments: Vec<Vec<u8>>,
}

impl Headers {
    #[verifier::type_invariant]
    spec fn well_formed(&self) -> bool {
        self.comments.len() <= i32::MAX
    }

    /// The vendor text, as raw bytes.
    pub closed spec fn vendor(&self) -> Seq<u8> {
        self.vendor@
    }

    /// The comments, each as raw bytes.
    pub closed spec fn comments(&self) -> Seq<Seq<u8>> {
        self.comments.deep_view()
    }

    /// Headers without vendor text and without comments.
    pub fn empty() -> (headers: Headers)
        ensures
            headers.vendor() == Seq::<u8>::empty(),
            headers.comments() == Seq::<Seq<u8>>::empty(),
    {
        let headers = Headers { vendor: Vec::new(), comments: Vec::new() };
        assert(headers.comments() =~= Seq::<Seq<u8>>::empty());
        headers
    }

    /// Headers with the given vendor text and comments.
    pub fn new(vendor: Vec<u8>, comments: Vec<Vec<u8>>) -> (headers: Headers)
        requires
            comments.len() <= i32::MAX,
        ensures
            headers.vendor() == vendor@,
            headers.comments() == comments.deep_view(),
    {
        Headers { vendor, comments }
    }

    /// The number of comments.
    pub fn len(&self) -> (count: i32)
        ensures
            count == self.comments().len(),
    {
        proof {
            use_type_invariant(self);
        }
        self.comments.len() as i32
    }

    /// The vendor text, decoded.
    ///
    /// Fails with `CommentCharacter` exactly when the bytes of the vendor text
    /// are not well-formed UTF-8.
    pub fn vendor_text(&self) -> (result: Result<String, VorbisError>)
        ensures
            match result {
                Ok(text) => valid_utf8(self.vendor()) && text@ == decode_utf8(self.vendor()),
                Err(error) => !valid_utf8(self.vendor()) && error is CommentCharacter,
            },
    {
        decode_text(self.vendor.as_slice())
    }

    /// The comment at `index`, counted from zero in the order of storage, or
    /// nothing where `index` is out of range.
    pub fn comment_at(&self, index: i32) -> (comment: Option<Comment<'_>>)
        ensures
            match comment {
                Some(found) => 0 <= index < self.comments().len() && found@
                    == self.comments()[index as int],
                None => !(0 <= index < self.comments().len()),
            },
    {
        if index >= 0 && (index as usize) < self.comments.len() {
            let raw = &self.comments[index as usize];
            assert(raw@ =~= self.comments()[index as int]);
            Some(Comment::new(raw.as_slice()))
        } else {
            None
        }
    }

    /// A cursor at the first comment.
    pub fn cursor(&self) -> (cursor: CommentsIter<'_>)
        ensures
            cursor@ == self.comments(),
    {
        let cursor = CommentsIter { headers: self, index: 0 };
        assert(cursor@ =~= self.comments());
        cursor
    }
}

/// A cursor over the comments of a stream, in the order of storage.
pub struct CommentsIter<'a> {
    headers: &'a Headers,
    index: i32,
}

impl<'a> View for CommentsIter<'a> {
    type V = Seq<Seq<u8>>;

    /// The comments that the cursor has not handed out yet, in their order.
    closed spec fn view(&self) -> Seq<Seq<u8>> {
        self.headers.comments().skip(self.index as int)
    }
}

impl<'a> CommentsIter<'a> {
    #[verifier::type_invariant]
    spec fn well_formed(&self) -> bool {
        0 <= self.index <= self.headers.comments().len()
    }

    /// Hands out the next comment and moves on, or hands out nothing when no
    /// comment is left.
    pub fn next(&mut self) -> (comment: Option<Comment<'a>>)
        ensures
            match comment {
                Some(found) => {
                    &&& old(self)@.len() > 0
                    &&& found@ == old(self)@.first()
                    &&& final(self)@ == old(self)@.drop_first()
                },
                None => old(self)@.len() == 0 && final(self)@ == old(self)@,
            },
    {
        proof {
            use_type_invariant(&*self);
            use_type_invariant(self.headers);
        }
        let comment = self.headers.comment_at(self.index);
        if comment.is_some() {
            self.index += 1;
            assert(self@ =~= old(self)@.drop_first());
        }
        comment
    }
}

/// True when the comment `raw` has the key `key`.
pub open spec fn comment_has_key(raw: Seq<u8>, key: Seq<u8>) -> bool {
    has_separator(raw) && key_part(raw) == key
}

/// True when a search for `key` cannot get past the comment `raw`: it holds
/// no `=`, or it has the key and its value is not well-formed UTF-8.
pub open spec fn comment_stops(raw: Seq<u8>, key: Seq<u8>) -> bool {
    !has_separator(raw) || (key_part(raw) == key && !valid_utf8(value_part(raw)))
}

/// True when a search for `key` gets past every one of `comments`.
pub open spec fn no_comment_stops(comments: Seq<Seq<u8>>, key: Seq<u8>) -> bool {
    forall|i: int| 0 <= i < comments.len() ==> !comment_stops(#[trigger] comments[i], key)
}

/// True when `at` is the place of the first comment that a search for `key`
/// cannot get past.
pub open spec fn is_first_stop(comments: Seq<Seq<u8>>, key: Seq<u8>, at: int) -> bool {
    &&& 0 <= at < comments.len()
    &&& comment_stops(comments[at], key)
    &&& no_comment_stops(comments.take(at), key)
}

/// True when `error` is what a search reports at the comment `raw`, which it
/// cannot get past.
pub open spec fn error_of(raw: Seq<u8>, error: VorbisError) -> bool {
    if has_separator(raw) {
        error is CommentCharacter
    } else {
        error == VorbisError::CommentFormat
    }
}

/// The value of the comment `raw` as text, where its key is `key`.
pub open spec fn value_for(raw: Seq<u8>, key: Seq<u8>) -> Option<Seq<char>> {
    if comment_has_key(raw, key) {
        Some(decode_utf8(value_part(raw)))
    } else {
        None
    }
}

/// The values of the comments with the key `key`, as text, in their order.
pub open spec fn values_for(comments: Seq<Seq<u8>>, key: Seq<u8>) -> Seq<Seq<char>> {
    comments.filter_map(|raw: Seq<u8>| value_for(raw, key))
}

/// True when `f` takes every call that folding `comments` from `seed` on can
/// make: each comment in turn, with anything that can have come of the
/// comments before it.
pub open spec fn fold_may_run<F, T>(f: F, comments: Seq<Seq<u8>>, seed: T) -> bool where
    F: Fn(T, &Comment) -> T,
 {
    forall|i: int, before: T, comment: &Comment|
        #![trigger fold_reaches(f, comments.take(i), seed, before), f.requires((before, comment))]
        0 <= i < comments.len() && fold_reaches(f, comments.take(i), seed, before)
            && comment.well_formed() && comment@ == comments[i] ==> f.requires((before, comment))
}

/// True when folding `comments` with `f`, from `seed` on, can end in `out`:
/// each step hands `f` what came of the comments before and the next comment.
pub open spec fn fold_reaches<F, T>(f: F, comments: Seq<Seq<u8>>, seed: T, out: T) -> bool where
    F: Fn(T, &Comment) -> T,

    decreases comments.len(),
{
    if comments.len() == 0 {
        out == seed
    } else {
        exists|before: T, comment: Comment|
            fold_reaches(f, comments.drop_last(), seed, before) && comment.well_formed()
                && comment@ == comments.last() && #[trigger] f.ensures((before, &comment), out)
    }
}

/// A fold over no comments ends in its seed, and a fold over some comments
/// ends in what `f` made of the last comment and of a fold over the others.
pub proof fn law_fold_steps<F, T>(f: F, comments: Seq<Seq<u8>>, seed: T, out: T) where
    F: Fn(T, &Comment) -> T,

    requires
        fold_reaches(f, comments, seed, out),
    ensures
        comments.len() == 0 ==> out == seed,
        comments.len() > 0 ==> exists|before: T, comment: Comment|
            fold_reaches(f, comments.drop_last(), seed, before) && comment.well_formed()
                && comment@ == comments.last() && #[trigger] f.ensures((before, &comment), out),
{
}

} // verus!
