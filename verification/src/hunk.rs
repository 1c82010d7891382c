//! Blame hunks: runs of lines that were last changed in one commit.
use vstd::prelude::*;
use vstd::string::StringSliceAdditionalSpecFns;
use vstd::utf8::valid_utf8;
use crate::error::{Error, ErrorClass, ErrorCode, utf8_error_message};
use crate::oid::Oid;
use crate::signature::Signature;
use crate::text::str_from_utf8;

verus! {

/// A blame hunk: a run of lines of the final file, and the commit that last
/// changed them.
pub struct BlameHunk {
    /// The commit where these lines were last changed.
    pub final_commit_id: Oid,
    /// The author of the final commit, if known.
    pub final_signature: Option<Signature>,
    /// The committer of the final commit, if known.
    pub final_committer: Option<Signature>,
    /// The line, counting from 1, where this hunk begins in the final file.
    pub final_start_line_number: usize,
    /// The commit where this hunk was found.
    pub orig_commit_id: Oid,
    /// The author of the original commit, if known.
    pub orig_signature: Option<Signature>,
    /// The committer of the original commit, if known.
    pub orig_committer: Option<Signature>,
    /// The line, counting from 1, where this hunk begins in the original file.
    pub orig_start_line_number: usize,
    /// The path of the file where this hunk originated, if known.
    pub orig_path: Option<Vec<u8>>,
    /// The raw boundary marker: 1 when the hunk was tracked to a boundary commit.
    pub boundary: u8,
    /// The number of lines in this hunk.
    pub lines_in_hunk: usize,
    /// The summary of the final commit's message, if known.
    pub summary: Option<Vec<u8>>,
}

/// The summary text of a hunk as `summary` returns it: `Ok(None)` when the
/// hunk has no summary, the text when the summary is valid UTF-8, and an error
/// of code `GenericError` and class `Unclassified` otherwise, whose message is
/// the display text of the UTF-8 error that decoding reported.
pub open spec fn summary_result(summary: Option<Seq<u8>>, r: Result<Option<&str>, Error>) -> bool {
    match summary {
        None => r == Ok::<Option<&str>, Error>(None),
        Some(bytes) => if valid_utf8(bytes) {
            r matches Ok(Some(s)) && s.spec_bytes() == bytes
        } else {
            &&& r is Err
            &&& r->Err_0.spec_code() == ErrorCode::GenericError
            &&& r->Err_0.spec_class() == ErrorClass::Unclassified
            &&& exists|u: std::str::Utf8Error| utf8_error_message(u, r->Err_0.spec_message())
        },
    }
}

/// The bytes held in an optional byte vector, as a sequence.
pub open spec fn opt_bytes_view(v: Option<Vec<u8>>) -> Option<Seq<u8>> {
    match v {
        Some(b) => Some(b@),
        None => None,
    }
}

/// `r` lends the value held in `v`, if any.
pub open spec fn lends<T>(r: Option<&T>, v: Option<T>) -> bool {
    match r {
        Some(x) => v == Some(*x),
        None => v is None,
    }
}

/// A held byte vector is seen whole: its sequence is all of its bytes, in
/// order, whatever its length.
pub proof fn lemma_opt_bytes_view_is_whole(v: Option<Vec<u8>>)
    ensures
        v is None ==> opt_bytes_view(v) is None,
        v matches Some(b) ==> opt_bytes_view(v) == Some(b@),
        v matches Some(b) ==> opt_bytes_view(v).unwrap().len() == b@.len(),
{
}

/// A summary that is valid UTF-8 is returned whole: the text's bytes are all
/// of the summary's bytes, whatever their length. A missing summary gives
/// `Ok(None)`, and one that is not valid UTF-8 gives an error.
pub proof fn lemma_summary_text_is_whole(bytes: Option<Seq<u8>>, r: Result<Option<&str>, Error>)
    requires
        summary_result(bytes, r),
    ensures
        bytes is None ==> r == Ok::<Option<&str>, Error>(None),
        bytes matches Some(b) ==> (valid_utf8(b) ==> (r matches Ok(Some(text))
            && text.spec_bytes() == b && text.spec_bytes().len() == b.len())),
        bytes matches Some(b) ==> (!valid_utf8(b) ==> r is Err),
{
}

/// An optional byte vector, lent as an optional slice.
fn opt_slice(v: &Option<Vec<u8>>) -> (r: Option<&[u8]>)
    ensures
        match r {
            Some(b) => opt_bytes_view(*v) == Some(b@),
            None => v is None,
        },
        v matches Some(bytes) ==> (r matches Some(b) && b@ == bytes@),
{
    match v {
        Some(b) => Some(b.as_slice()),
        None => None,
    }
}

impl BlameHunk {
    /// The line numbers, counting from 1, that this hunk covers in the final
    /// file: `final_start_line_number` up to and excluding
    /// `final_start_line_number + lines_in_hunk`.
    pub open spec fn covers(&self, lineno: int) -> bool {
        self.final_start_line_number <= lineno < self.final_start_line_number + self.lines_in_hunk
    }

    /// Returns OID of the commit where this line was last changed.
    pub fn final_commit_id(&self) -> (id: Oid)
        ensures
            id == self.final_commit_id,
    {
        self.final_commit_id
    }

    /// Returns signature for the author of the final commit, if present.
    pub fn final_signature(&self) -> (r: Option<&Signature>)
        ensures
            lends(r, self.final_signature),
    {
        self.final_signature.as_ref()
    }

    /// Returns signature for the committer of the final commit, if present.
    pub fn final_committer(&self) -> (r: Option<&Signature>)
        ensures
            lends(r, self.final_committer),
    {
        self.final_committer.as_ref()
    }

    /// Returns line number where this hunk begins. The start line is counting from 1.
    pub fn final_start_line(&self) -> (n: usize)
        ensures
            n == self.final_start_line_number,
    {
        self.final_start_line_number
    }

    /// Returns the OID of the commit where this hunk was found.
    pub fn orig_commit_id(&self) -> (id: Oid)
        ensures
            id == self.orig_commit_id,
    {
        self.orig_commit_id
    }

    /// Returns signature of the author of the original commit, if present.
    pub fn orig_signature(&self) -> (r: Option<&Signature>)
        ensures
            lends(r, self.orig_signature),
    {
        self.orig_signature.as_ref()
    }

    /// Returns signature of the committer of the original commit, if present.
    pub fn orig_committer(&self) -> (r: Option<&Signature>)
        ensures
            lends(r, self.orig_committer),
    {
        self.orig_committer.as_ref()
    }

    /// Returns line number where this hunk begins in the original file.
    /// The start line is counting from 1.
    pub fn orig_start_line(&self) -> (n: usize)
        ensures
            n == self.orig_start_line_number,
    {
        self.orig_start_line_number
    }

    /// Returns path to the file where this hunk originated, as bytes.
    pub fn path(&self) -> (r: Option<&[u8]>)
        ensures
            match r {
                Some(b) => opt_bytes_view(self.orig_path) == Some(b@),
                None => self.orig_path is None,
            },
            self.orig_path matches Some(p) ==> (r matches Some(b) && b@ == p@),
    {
        opt_slice(&self.orig_path)
    }

    /// Tests whether this hunk has been tracked to a boundary commit.
    pub fn is_boundary(&self) -> (r: bool)
        ensures
            r == (self.boundary == 1),
    {
        self.boundary == 1
    }

    /// Returns number of lines in this hunk.
    pub fn lines_in_hunk(&self) -> (n: usize)
        ensures
            n == self.lines_in_hunk,
    {
        self.lines_in_hunk
    }

    /// Get the short "summary" of the git commit message for the hunk.
    ///
    /// `Ok(None)` is returned if there is no summary, and an error if the
    /// summary is not valid UTF-8.
    pub fn summary(&self) -> (r: Result<Option<&str>, Error>)
        ensures
            summary_result(opt_bytes_view(self.summary), r),
            self.summary is None ==> r == Ok::<Option<&str>, Error>(None),
            self.summary matches Some(v) ==> (valid_utf8(v@) ==> (r matches Ok(Some(text))
                && text.spec_bytes() == v@)),
            self.summary matches Some(v) ==> (!valid_utf8(v@) ==> r is Err),
    {
        match self.summary_bytes() {
            Some(sb) => match str_from_utf8(sb) {
                Ok(s) => Ok(Some(s)),
                Err(e) => Err(Error::from_utf8_error(&e)),
            },
            None => Ok(None),
        }
    }

    /// Get the short "summary" of the git commit message for the hunk, as bytes.
    pub fn summary_bytes(&self) -> (r: Option<&[u8]>)
        ensures
            match r {
                Some(b) => opt_bytes_view(self.summary) == Some(b@),
                None => self.summary is None,
            },
            self.summary matches Some(v) ==> (r matches Some(b) && b@ == v@),
    {
        opt_slice(&self.summary)
    }
}

} // verus!
