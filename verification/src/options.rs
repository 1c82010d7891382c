//! Options that control how a file is blamed.
use vstd::prelude::*;
use crate::oid::{Oid, spec_is_zero};

verus! {

/// Normal blame, the default.
pub const BLAME_NORMAL: u32 = 0;
/// Track lines that have moved within a file.
pub const BLAME_TRACK_COPIES_SAME_FILE: u32 = 1;
/// Track lines that have moved across files in the same commit.
pub const BLAME_TRACK_COPIES_SAME_COMMIT_MOVES: u32 = 2;
/// Track lines that have been copied from another file that exists in the same commit.
pub const BLAME_TRACK_COPIES_SAME_COMMIT_COPIES: u32 = 4;
/// Track lines that have been copied from another file that exists in any commit.
pub const BLAME_TRACK_COPIES_ANY_COMMIT_COPIES: u32 = 8;
/// Restrict the search of commits to those reachable following only the first parents.
pub const BLAME_FIRST_PARENT: u32 = 16;
/// Use the mailmap to map author and committer names and addresses.
pub const BLAME_USE_MAILMAP: u32 = 32;
/// Ignore whitespace differences.
pub const BLAME_IGNORE_WHITESPACE: u32 = 64;

/// The version of the options structure.
pub const BLAME_OPTIONS_VERSION: u32 = 1;

/// The flag word after the bits of `opt` were set (when `val`) or cleared.
pub open spec fn spec_flag(flags: u32, opt: u32, val: bool) -> u32 {
    if val {
        flags | opt
    } else {
        flags & !opt
    }
}

/// Whether bit `b` of `x` is set.
pub open spec fn bit_set(x: u32, b: u32) -> bool {
    (x >> b) & 1 == 1
}

/// Blame options.
pub struct BlameOptions {
    version: u32,
    flags: u32,
    min_match_characters: u16,
    newest_commit: Oid,
    oldest_commit: Oid,
    min_line: usize,
    max_line: usize,
}

/// The abstract value of a set of blame options.
pub struct BlameOptionsView {
    pub version: u32,
    pub flags: u32,
    pub min_match_characters: u16,
    pub newest_commit: Seq<u8>,
    pub oldest_commit: Seq<u8>,
    pub min_line: usize,
    pub max_line: usize,
}

impl View for BlameOptions {
    type V = BlameOptionsView;

    closed spec fn view(&self) -> BlameOptionsView {
        BlameOptionsView {
            version: self.version,
            flags: self.flags,
            min_match_characters: self.min_match_characters,
            newest_commit: self.newest_commit@,
            oldest_commit: self.oldest_commit@,
            min_line: self.min_line,
            max_line: self.max_line,
        }
    }
}

impl BlameOptionsView {
    /// These options with the bits of `opt` set to `val` and everything else kept.
    pub open spec fn with_flag(self, opt: u32, val: bool) -> BlameOptionsView {
        BlameOptionsView { flags: spec_flag(self.flags, opt, val), ..self }
    }
}

/// What freshly initialized options hold: the current version, normal blame,
/// zero ids, and the whole file.
pub open spec fn initial_options(o: BlameOptionsView) -> bool {
    &&& o.version == BLAME_OPTIONS_VERSION
    &&& o.flags == BLAME_NORMAL
    &&& o.min_match_characters == 0
    &&& o.newest_commit.len() == 20
    &&& spec_is_zero(o.newest_commit)
    &&& o.oldest_commit.len() == 20
    &&& spec_is_zero(o.oldest_commit)
    &&& o.min_line == 0
    &&& o.max_line == 0
}

impl BlameOptions {
    /// Initialize options.
    pub fn new() -> (o: BlameOptions)
        ensures
            initial_options(o@),
    {
        BlameOptions {
            version: BLAME_OPTIONS_VERSION,
            flags: BLAME_NORMAL,
            min_match_characters: 0,
            newest_commit: Oid::zero(),
            oldest_commit: Oid::zero(),
            min_line: 0,
            max_line: 0,
        }
    }

    /// Sets (when `val`) or clears the bits of `opt` in the flag word.
    pub fn flag(&mut self, opt: u32, val: bool) -> (r: &mut BlameOptions)
        ensures
            (*r)@ == old(self)@.with_flag(opt, val),
            val ==> (*r)@.flags == old(self)@.flags | opt,
            !val ==> (*r)@.flags == old(self)@.flags & !opt,
            *final(self) == *final(r),
    {
        if val {
            self.flags = self.flags | opt;
        } else {
            self.flags = self.flags & !opt;
        }
        self
    }

    /// Track lines that have moved within a file.
    pub fn track_copies_same_file(&mut self, opt: bool) -> (r: &mut BlameOptions)
        ensures
            (*r)@ == old(self)@.with_flag(BLAME_TRACK_COPIES_SAME_FILE, opt),
            opt ==> (*r)@.flags == old(self)@.flags | BLAME_TRACK_COPIES_SAME_FILE,
            !opt ==> (*r)@.flags == old(self)@.flags & !BLAME_TRACK_COPIES_SAME_FILE,
            *final(self) == *final(r),
    {
        self.flag(BLAME_TRACK_COPIES_SAME_FILE, opt)
    }

    /// Track lines that have moved across files in the same commit.
    pub fn track_copies_same_commit_moves(&mut self, opt: bool) -> (r: &mut BlameOptions)
        ensures
            (*r)@ == old(self)@.with_flag(BLAME_TRACK_COPIES_SAME_COMMIT_MOVES, opt),
            opt ==> (*r)@.flags == old(self)@.flags | BLAME_TRACK_COPIES_SAME_COMMIT_MOVES,
            !opt ==> (*r)@.flags == old(self)@.flags & !BLAME_TRACK_COPIES_SAME_COMMIT_MOVES,
            *final(self) == *final(r),
    {
        self.flag(BLAME_TRACK_COPIES_SAME_COMMIT_MOVES, opt)
    }

    /// Track lines that have been copied from another file that exists
    /// in the same commit.
    pub fn track_copies_same_commit_copies(&mut self, opt: bool) -> (r: &mut BlameOptions)
        ensures
            (*r)@ == old(self)@.with_flag(BLAME_TRACK_COPIES_SAME_COMMIT_COPIES, opt),
            opt ==> (*r)@.flags == old(self)@.flags | BLAME_TRACK_COPIES_SAME_COMMIT_COPIES,
            !opt ==> (*r)@.flags == old(self)@.flags & !BLAME_TRACK_COPIES_SAME_COMMIT_COPIES,
            *final(self) == *final(r),
    {
        self.flag(BLAME_TRACK_COPIES_SAME_COMMIT_COPIES, opt)
    }

    /// Track lines that have been copied from another file that exists
    /// in any commit.
    pub fn track_copies_any_commit_copies(&mut self, opt: bool) -> (r: &mut BlameOptions)
        ensures
            (*r)@ == old(self)@.with_flag(BLAME_TRACK_COPIES_ANY_COMMIT_COPIES, opt),
            opt ==> (*r)@.flags == old(self)@.flags | BLAME_TRACK_COPIES_ANY_COMMIT_COPIES,
            !opt ==> (*r)@.flags == old(self)@.flags & !BLAME_TRACK_COPIES_ANY_COMMIT_COPIES,
            *final(self) == *final(r),
    {
        self.flag(BLAME_TRACK_COPIES_ANY_COMMIT_COPIES, opt)
    }

    /// Restrict the search of commits to those reachable following only
    /// the first parents.
    pub fn first_parent(&mut self, opt: bool) -> (r: &mut BlameOptions)
        ensures
            (*r)@ == old(self)@.with_flag(BLAME_FIRST_PARENT, opt),
            opt ==> (*r)@.flags == old(self)@.flags | BLAME_FIRST_PARENT,
            !opt ==> (*r)@.flags == old(self)@.flags & !BLAME_FIRST_PARENT,
            *final(self) == *final(r),
    {
        self.flag(BLAME_FIRST_PARENT, opt)
    }

    /// Use mailmap file to map author and committer names and email addresses
    /// to canonical real names and email addresses.
    pub fn use_mailmap(&mut self, opt: bool) -> (r: &mut BlameOptions)
        ensures
            (*r)@ == old(self)@.with_flag(BLAME_USE_MAILMAP, opt),
            opt ==> (*r)@.flags == old(self)@.flags | BLAME_USE_MAILMAP,
            !opt ==> (*r)@.flags == old(self)@.flags & !BLAME_USE_MAILMAP,
            *final(self) == *final(r),
    {
        self.flag(BLAME_USE_MAILMAP, opt)
    }

    /// Ignore whitespace differences.
    pub fn ignore_whitespace(&mut self, opt: bool) -> (r: &mut BlameOptions)
        ensures
            (*r)@ == old(self)@.with_flag(BLAME_IGNORE_WHITESPACE, opt),
            opt ==> (*r)@.flags == old(self)@.flags | BLAME_IGNORE_WHITESPACE,
            !opt ==> (*r)@.flags == old(self)@.flags & !BLAME_IGNORE_WHITESPACE,
            *final(self) == *final(r),
    {
        self.flag(BLAME_IGNORE_WHITESPACE, opt)
    }

    /// Setter for the id of the newest commit to consider.
    pub fn newest_commit(&mut self, id: Oid) -> (r: &mut BlameOptions)
        ensures
            (*r)@ == (BlameOptionsView { newest_commit: id@, ..old(self)@ }),
            *final(self) == *final(r),
    {
        self.newest_commit = id;
        self
    }

    /// Setter for the id of the oldest commit to consider.
    pub fn oldest_commit(&mut self, id: Oid) -> (r: &mut BlameOptions)
        ensures
            (*r)@ == (BlameOptionsView { oldest_commit: id@, ..old(self)@ }),
            *final(self) == *final(r),
    {
        self.oldest_commit = id;
        self
    }

    /// The first line in the file to blame.
    pub fn min_line(&mut self, lineno: usize) -> (r: &mut BlameOptions)
        ensures
            (*r)@ == (BlameOptionsView { min_line: lineno, ..old(self)@ }),
            *final(self) == *final(r),
    {
        self.min_line = lineno;
        self
    }

    /// The last line in the file to blame.
    pub fn max_line(&mut self, lineno: usize) -> (r: &mut BlameOptions)
        ensures
            (*r)@ == (BlameOptionsView { max_line: lineno, ..old(self)@ }),
            *final(self) == *final(r),
    {
        self.max_line = lineno;
        self
    }

    /// The version of the options structure.
    pub fn version(&self) -> (v: u32)
        ensures
            v == self@.version,
    {
        self.version
    }

    /// The flag word.
    pub fn flags(&self) -> (f: u32)
        ensures
            f == self@.flags,
    {
        self.flags
    }

    /// The minimum number of characters that must be detected as moving or
    /// copying within a file for a line to count.
    pub fn min_match_characters(&self) -> (n: u16)
        ensures
            n == self@.min_match_characters,
    {
        self.min_match_characters
    }

    /// The id of the newest commit to consider.
    pub fn newest_commit_id(&self) -> (id: Oid)
        ensures
            id@ == self@.newest_commit,
    {
        self.newest_commit
    }

    /// The id of the oldest commit to consider.
    pub fn oldest_commit_id(&self) -> (id: Oid)
        ensures
            id@ == self@.oldest_commit,
    {
        self.oldest_commit
    }

    /// The first line in the file to blame.
    pub fn min_line_number(&self) -> (n: usize)
        ensures
            n == self@.min_line,
    {
        self.min_line
    }

    /// The last line in the file to blame.
    pub fn max_line_number(&self) -> (n: usize)
        ensures
            n == self@.max_line,
    {
        self.max_line
    }
}

/// Setting or clearing the bits of `opt` changes exactly those bits of the
/// flag word: a bit of `opt` ends up equal to `val`, every other bit keeps its
/// value.
pub proof fn lemma_flag_changes_only_its_bits(flags: u32, opt: u32, val: bool, b: u32)
    requires
        b < 32,
    ensures
        bit_set(spec_flag(flags, opt, val), b) == if bit_set(opt, b) {
            val
        } else {
            bit_set(flags, b)
        },
{
    if val {
        assert(bit_set(flags | opt, b) == if bit_set(opt, b) {
            true
        } else {
            bit_set(flags, b)
        }) by (bit_vector)
            requires
                b < 32,
        ;
    } else {
        assert(bit_set(flags & !opt, b) == if bit_set(opt, b) {
            false
        } else {
            bit_set(flags, b)
        }) by (bit_vector)
            requires
                b < 32,
        ;
    }
}

/// Setting flags on options sets every bit of `opt` and keeps every other bit,
/// whatever the flags held before; clearing clears every bit of `opt` and keeps
/// every other bit. Setting twice is the same as setting once, clearing twice
/// the same as clearing once, and nothing but the flag word changes.
pub proof fn lemma_with_flag_sets_and_clears(o: BlameOptionsView, opt: u32)
    ensures
        o.with_flag(opt, true).flags == o.flags | opt,
        o.with_flag(opt, false).flags == o.flags & !opt,
        o.with_flag(opt, true).flags & opt == opt,
        o.with_flag(opt, false).flags & opt == 0,
        o.with_flag(opt, true).flags & !opt == o.flags & !opt,
        o.with_flag(opt, false).flags & !opt == o.flags & !opt,
        o.with_flag(opt, true).with_flag(opt, true) == o.with_flag(opt, true),
        o.with_flag(opt, false).with_flag(opt, false) == o.with_flag(opt, false),
        o.with_flag(opt, true).version == o.version,
        o.with_flag(opt, true).min_match_characters == o.min_match_characters,
        o.with_flag(opt, true).newest_commit == o.newest_commit,
        o.with_flag(opt, true).oldest_commit == o.oldest_commit,
        o.with_flag(opt, true).min_line == o.min_line,
        o.with_flag(opt, true).max_line == o.max_line,
        o.with_flag(opt, false).version == o.version,
        o.with_flag(opt, false).min_match_characters == o.min_match_characters,
        o.with_flag(opt, false).newest_commit == o.newest_commit,
        o.with_flag(opt, false).oldest_commit == o.oldest_commit,
        o.with_flag(opt, false).min_line == o.min_line,
        o.with_flag(opt, false).max_line == o.max_line,
{
    let f = o.flags;
    assert(((f | opt) & opt) == opt && ((f & !opt) & opt) == 0 && ((f | opt) & !opt) == (f
        & !opt) && ((f & !opt) & !opt) == (f & !opt) && ((f | opt) | opt) == (f | opt)) by (
    bit_vector);
}

/// Of two settings of the same flags, the later one wins.
pub proof fn lemma_flag_last_wins(flags: u32, opt: u32, first: bool, second: bool)
    ensures
        spec_flag(spec_flag(flags, opt, first), opt, second) == spec_flag(flags, opt, second),
{
    assert(((flags | opt) | opt) == (flags | opt)) by (bit_vector);
    assert(((flags & !opt) | opt) == (flags | opt)) by (bit_vector);
    assert(((flags | opt) & !opt) == (flags & !opt)) by (bit_vector);
    assert(((flags & !opt) & !opt) == (flags & !opt)) by (bit_vector);
}

/// Settings of disjoint flags can be made in either order.
pub proof fn lemma_flag_disjoint_commute(flags: u32, opt1: u32, val1: bool, opt2: u32, val2: bool)
    requires
        opt1 & opt2 == 0,
    ensures
        spec_flag(spec_flag(flags, opt1, val1), opt2, val2) == spec_flag(
            spec_flag(flags, opt2, val2),
            opt1,
            val1,
        ),
{
    assert(((flags | opt1) | opt2) == ((flags | opt2) | opt1)) by (bit_vector);
    assert(((flags & !opt1) & !opt2) == ((flags & !opt2) & !opt1)) by (bit_vector);
    assert(((flags | opt1) & !opt2) == ((flags & !opt2) | opt1)) by (bit_vector)
        requires
            opt1 & opt2 == 0,
    ;
    assert(((flags & !opt1) | opt2) == ((flags | opt2) & !opt1)) by (bit_vector)
        requires
            opt1 & opt2 == 0,
    ;
}

/// The option flags are distinct single bits: no two of them share a bit.
pub proof fn lemma_option_flags_disjoint()
    ensures
        BLAME_TRACK_COPIES_SAME_FILE & BLAME_TRACK_COPIES_SAME_COMMIT_MOVES == 0,
        BLAME_TRACK_COPIES_SAME_FILE & BLAME_TRACK_COPIES_SAME_COMMIT_COPIES == 0,
        BLAME_TRACK_COPIES_SAME_FILE & BLAME_TRACK_COPIES_ANY_COMMIT_COPIES == 0,
        BLAME_TRACK_COPIES_SAME_FILE & BLAME_FIRST_PARENT == 0,
        BLAME_TRACK_COPIES_SAME_FILE & BLAME_USE_MAILMAP == 0,
        BLAME_TRACK_COPIES_SAME_FILE & BLAME_IGNORE_WHITESPACE == 0,
        BLAME_TRACK_COPIES_SAME_COMMIT_MOVES & BLAME_TRACK_COPIES_SAME_COMMIT_COPIES == 0,
        BLAME_TRACK_COPIES_SAME_COMMIT_MOVES & BLAME_TRACK_COPIES_ANY_COMMIT_COPIES == 0,
        BLAME_TRACK_COPIES_SAME_COMMIT_MOVES & BLAME_FIRST_PARENT == 0,
        BLAME_TRACK_COPIES_SAME_COMMIT_MOVES & BLAME_USE_MAILMAP == 0,
        BLAME_TRACK_COPIES_SAME_COMMIT_MOVES & BLAME_IGNORE_WHITESPACE == 0,
        BLAME_TRACK_COPIES_SAME_COMMIT_COPIES & BLAME_TRACK_COPIES_ANY_COMMIT_COPIES == 0,
        BLAME_TRACK_COPIES_SAME_COMMIT_COPIES & BLAME_FIRST_PARENT == 0,
        BLAME_TRACK_COPIES_SAME_COMMIT_COPIES & BLAME_USE_MAILMAP == 0,
        BLAME_TRACK_COPIES_SAME_COMMIT_COPIES & BLAME_IGNORE_WHITESPACE == 0,
        BLAME_TRACK_COPIES_ANY_COMMIT_COPIES & BLAME_FIRST_PARENT == 0,
        BLAME_TRACK_COPIES_ANY_COMMIT_COPIES & BLAME_USE_MAILMAP == 0,
        BLAME_TRACK_COPIES_ANY_COMMIT_COPIES & BLAME_IGNORE_WHITESPACE == 0,
        BLAME_FIRST_PARENT & BLAME_USE_MAILMAP == 0,
        BLAME_FIRST_PARENT & BLAME_IGNORE_WHITESPACE == 0,
        BLAME_USE_MAILMAP & BLAME_IGNORE_WHITESPACE == 0,
{
    assert({
        &&& 1u32 & 2u32 == 0
        &&& 1u32 & 4u32 == 0
        &&& 1u32 & 8u32 == 0
        &&& 1u32 & 16u32 == 0
        &&& 1u32 & 32u32 == 0
        &&& 1u32 & 64u32 == 0
        &&& 2u32 & 4u32 == 0
        &&& 2u32 & 8u32 == 0
        &&& 2u32 & 16u32 == 0
        &&& 2u32 & 32u32 == 0
        &&& 2u32 & 64u32 == 0
        &&& 4u32 & 8u32 == 0
        &&& 4u32 & 16u32 == 0
        &&& 4u32 & 32u32 == 0
        &&& 4u32 & 64u32 == 0
        &&& 8u32 & 16u32 == 0
        &&& 8u32 & 32u32 == 0
        &&& 8u32 & 64u32 == 0
        &&& 16u32 & 32u32 == 0
        &&& 16u32 & 64u32 == 0
        &&& 32u32 & 64u32 == 0
    }) by (bit_vector);
}

impl Default for BlameOptions {
    fn default() -> (o: Self)
        ensures
            initial_options(o@),
    {
        Self::new()
    }
}

} // verus!
