//! Blame results: the hunks of a file, looked up by index and by line.
use vstd::prelude::*;
use crate::error::{Error, ErrorClass, ErrorCode};
use crate::hunk::{BlameHunk, lends};

verus! {

/// The line just past the last line of a hunk.
pub open spec fn hunk_end(h: BlameHunk) -> int {
    h.final_start_line_number + h.lines_in_hunk
}

/// A list of hunks that a blame can hold: at most `u32::MAX` of them, each
/// starting at line 1 or later (lines count from 1) and ending within `usize`,
/// in order of their lines and not overlapping.
pub open spec fn hunks_well_formed(hunks: Seq<BlameHunk>) -> bool {
    &&& hunks.len() <= u32::MAX
    &&& forall|i: int| 0 <= i < hunks.len() ==> 1 <= (#[trigger] hunks[i]).final_start_line_number
    &&& forall|i: int| 0 <= i < hunks.len() ==> hunk_end(#[trigger] hunks[i]) <= usize::MAX
    &&& forall|i: int, j: int|
        0 <= i < j < hunks.len() ==> hunk_end(#[trigger] hunks[i])
            <= (#[trigger] hunks[j]).final_start_line_number
}

/// Some hunk of `hunks` covers line `lineno`.
pub open spec fn some_hunk_covers(hunks: Seq<BlameHunk>, lineno: int) -> bool {
    exists|i: int| 0 <= i < hunks.len() && (#[trigger] hunks[i]).covers(lineno)
}

/// The hunk that covers line `lineno`, if any.
pub open spec fn hunk_at_line(hunks: Seq<BlameHunk>, lineno: int) -> Option<BlameHunk> {
    if some_hunk_covers(hunks, lineno) {
        let i = choose|i: int| 0 <= i < hunks.len() && (#[trigger] hunks[i]).covers(lineno);
        Some(hunks[i])
    } else {
        None
    }
}

/// The hunk at position `index`, or `None` past the end.
pub open spec fn hunk_at_index(hunks: Seq<BlameHunk>, index: usize) -> Option<BlameHunk> {
    if index < hunks.len() {
        Some(hunks[index as int])
    } else {
        None
    }
}

/// The messages with which `Blame::new` refuses hunks: too many of them, one
/// starting before line 1, two out of order or overlapping, or one ending past
/// the largest line number.
pub open spec fn malformed_hunks_message(m: Seq<char>) -> bool {
    ||| m == "too many blame hunks"@
    ||| m == "blame hunk starts before line 1"@
    ||| m == "blame hunks overlap or are out of order"@
    ||| m == "blame hunk ends past the last line number"@
}

/// A list of hunks is well formed exactly when it has at most `u32::MAX`
/// hunks, each starting at line 1 or later and ending within `usize`, each
/// ending no later than the next one starts; the length is not limited
/// further.
pub proof fn lemma_well_formed_exactly(hunks: Seq<BlameHunk>)
    ensures
        hunks_well_formed(hunks) <==> (hunks.len() <= u32::MAX && (forall|i: int|
            0 <= i < hunks.len() ==> 1 <= (#[trigger] hunks[i]).final_start_line_number
                && hunks[i].final_start_line_number + hunks[i].lines_in_hunk <= usize::MAX) && (
        forall|i: int, j: int|
            0 <= i < j < hunks.len() ==> (#[trigger] hunks[i]).final_start_line_number
                + hunks[i].lines_in_hunk <= (#[trigger] hunks[j]).final_start_line_number)),
{
}

/// Looking up a line gives a hunk exactly when some hunk starts at or before
/// the line and ends after it, and the hunk it gives is one of the list's
/// hunks that does; a hunk with no lines covers no line.
pub proof fn lemma_hunk_at_line_exactly(hunks: Seq<BlameHunk>, lineno: int)
    ensures
        hunk_at_line(hunks, lineno) is None <==> forall|i: int|
            0 <= i < hunks.len() ==> !((#[trigger] hunks[i]).final_start_line_number <= lineno
                < hunks[i].final_start_line_number + hunks[i].lines_in_hunk),
        hunk_at_line(hunks, lineno) matches Some(h) ==> (h.final_start_line_number <= lineno
            < h.final_start_line_number + h.lines_in_hunk && exists|i: int|
            0 <= i < hunks.len() && hunks[i] == h),
{
    if some_hunk_covers(hunks, lineno) {
        let i = choose|i: int| 0 <= i < hunks.len() && (#[trigger] hunks[i]).covers(lineno);
        assert(hunks[i].covers(lineno));
    }
}

/// In a well-formed list, hunks never overlap: at most one covers a line.
pub proof fn lemma_at_most_one_hunk_covers(hunks: Seq<BlameHunk>, lineno: int, i: int, j: int)
    requires
        hunks_well_formed(hunks),
        0 <= i < hunks.len(),
        0 <= j < hunks.len(),
        hunks[i].covers(lineno),
        hunks[j].covers(lineno),
    ensures
        i == j,
{
    if i < j {
        assert(hunk_end(hunks[i]) <= hunks[j].final_start_line_number);
    } else if j < i {
        assert(hunk_end(hunks[j]) <= hunks[i].final_start_line_number);
    }
}

/// Looking a line up in a well-formed list gives the hunk that covers it:
/// every line of every hunk reads back that hunk.
pub proof fn lemma_hunk_at_line_finds_covering_hunk(hunks: Seq<BlameHunk>, lineno: int, i: int)
    requires
        hunks_well_formed(hunks),
        0 <= i < hunks.len(),
        hunks[i].covers(lineno),
    ensures
        hunk_at_line(hunks, lineno) == Some(hunks[i]),
{
    assert(some_hunk_covers(hunks, lineno));
    let k = choose|k: int| 0 <= k < hunks.len() && (#[trigger] hunks[k]).covers(lineno);
    lemma_at_most_one_hunk_covers(hunks, lineno, i, k);
}

/// In a well-formed list, later hunks start and end no earlier than earlier ones.
proof fn lemma_hunks_ordered(hunks: Seq<BlameHunk>, i: int, j: int)
    requires
        hunks_well_formed(hunks),
        0 <= i <= j < hunks.len(),
    ensures
        hunks[i].final_start_line_number <= hunks[j].final_start_line_number,
        hunk_end(hunks[i]) <= hunk_end(hunks[j]),
{
    if i < j {
        assert(hunk_end(hunks[i]) <= hunks[j].final_start_line_number);
    }
}

/// Reading a well-formed list by index from 0 up to its length gives its
/// hunks in order: the order in which a fresh iterator yields them.
pub proof fn lemma_index_reads_hunks_in_order(hunks: Seq<BlameHunk>, k: usize)
    requires
        hunks_well_formed(hunks),
        k < hunks.len(),
    ensures
        hunk_at_index(hunks, k) == Some(hunks[k as int]),
{
}

/// The hunks left after one step of an iteration: from the front when
/// `from_front`, else from the back; nothing changes once none are left.
pub open spec fn take_step<A>(s: Seq<A>, from_front: bool) -> Seq<A> {
    if s.len() == 0 {
        s
    } else if from_front {
        s.drop_first()
    } else {
        s.drop_last()
    }
}

/// What one step of an iteration yields: the first or the last of the hunks
/// left, or `None` once none are left.
pub open spec fn step_item<A>(s: Seq<A>, from_front: bool) -> Option<A> {
    if s.len() == 0 {
        None
    } else if from_front {
        Some(s.first())
    } else {
        Some(s.last())
    }
}

/// What is left of `s` after the steps `moves` (`true` from the front,
/// `false` from the back), taken in order.
pub open spec fn remaining_after<A>(s: Seq<A>, moves: Seq<bool>) -> Seq<A>
    decreases moves.len(),
{
    if moves.len() == 0 {
        s
    } else {
        take_step(remaining_after(s, moves.drop_last()), moves.last())
    }
}

/// What step `j` of the steps `moves` yields.
pub open spec fn item_at_move<A>(s: Seq<A>, moves: Seq<bool>, j: int) -> Option<A> {
    step_item(remaining_after(s, moves.take(j)), moves[j])
}

/// The number of steps from the front in `moves`.
pub open spec fn count_front(moves: Seq<bool>) -> nat
    decreases moves.len(),
{
    if moves.len() == 0 {
        0
    } else {
        count_front(moves.drop_last()) + if moves.last() {
            1nat
        } else {
            0nat
        }
    }
}

/// The number of steps from the back in `moves`.
pub open spec fn count_back(moves: Seq<bool>) -> nat
    decreases moves.len(),
{
    if moves.len() == 0 {
        0
    } else {
        count_back(moves.drop_last()) + if moves.last() {
            0nat
        } else {
            1nat
        }
    }
}

/// The position, among `n` hunks, of the hunk that step `j` of `moves`
/// yields: the next one from the front, or the next one from the back.
pub open spec fn move_index(n: int, moves: Seq<bool>, j: int) -> int {
    if moves[j] {
        count_front(moves.take(j)) as int
    } else {
        n - 1 - count_back(moves.take(j))
    }
}

proof fn lemma_counts_add_up(moves: Seq<bool>)
    ensures
        count_front(moves) + count_back(moves) == moves.len(),
    decreases moves.len(),
{
    if moves.len() > 0 {
        lemma_counts_add_up(moves.drop_last());
    }
}

proof fn lemma_counts_grow(moves: Seq<bool>, i: int, j: int)
    requires
        0 <= i <= j <= moves.len(),
    ensures
        count_front(moves.take(i)) <= count_front(moves.take(j)),
        count_back(moves.take(i)) <= count_back(moves.take(j)),
    decreases j - i,
{
    if i < j {
        lemma_counts_grow(moves, i, j - 1);
        assert(moves.take(j).drop_last() =~= moves.take(j - 1));
    }
}

/// Any mix of steps from the front and from the back, no more than there are
/// hunks, leaves exactly the hunks between those taken from the front and
/// those taken from the back: the count left, which the size hint reports, is
/// the count at the start less the number of steps.
pub proof fn lemma_remaining_after_moves<A>(s: Seq<A>, moves: Seq<bool>)
    requires
        moves.len() <= s.len(),
    ensures
        count_front(moves) + count_back(moves) == moves.len(),
        remaining_after(s, moves) == s.subrange(
            count_front(moves) as int,
            s.len() - count_back(moves),
        ),
        remaining_after(s, moves).len() == s.len() - moves.len(),
    decreases moves.len(),
{
    lemma_counts_add_up(moves);
    if moves.len() > 0 {
        let prev = moves.drop_last();
        lemma_remaining_after_moves(s, prev);
        lemma_counts_add_up(prev);
        let r = remaining_after(s, prev);
        if moves.last() {
            assert(r.drop_first() =~= s.subrange(
                count_front(moves) as int,
                s.len() - count_back(moves),
            ));
        } else {
            assert(r.drop_last() =~= s.subrange(
                count_front(moves) as int,
                s.len() - count_back(moves),
            ));
        }
    }
}

/// Once every hunk has been yielded, every further step yields `None`.
pub proof fn lemma_exhausted_stays_exhausted<A>(s: Seq<A>, moves: Seq<bool>, j: int)
    requires
        s.len() <= j < moves.len(),
    ensures
        remaining_after(s, moves.take(j)).len() == 0,
        item_at_move(s, moves, j) is None,
    decreases j,
{
    if j == s.len() {
        lemma_remaining_after_moves(s, moves.take(j));
    } else {
        lemma_exhausted_stays_exhausted(s, moves, j - 1);
        assert(moves.take(j).drop_last() =~= moves.take(j - 1));
    }
}

/// Step `j` of a mix of steps, no more than there are hunks, yields the hunk
/// at position `move_index(..)`: from the front the hunks come in order, from
/// the back in reverse order.
pub proof fn lemma_each_move_yields_its_hunk<A>(s: Seq<A>, moves: Seq<bool>, j: int)
    requires
        moves.len() <= s.len(),
        0 <= j < moves.len(),
    ensures
        0 <= move_index(s.len() as int, moves, j) < s.len(),
        item_at_move(s, moves, j) == Some(s[move_index(s.len() as int, moves, j)]),
{
    let before = moves.take(j);
    lemma_remaining_after_moves(s, before);
}

/// In a mix of steps, no more than there are hunks, no two steps yield the
/// hunk at the same position: every hunk is yielded at most once, and once
/// the steps number the hunks, exactly once.
pub proof fn lemma_moves_yield_distinct_hunks(n: int, moves: Seq<bool>, i: int, j: int)
    requires
        moves.len() <= n,
        0 <= i < j < moves.len(),
    ensures
        move_index(n, moves, i) != move_index(n, moves, j),
{
    lemma_counts_grow(moves, i + 1, j);
    assert(moves.take(i + 1).drop_last() =~= moves.take(i));
    lemma_counts_add_up(moves.take(j));
}

/// The size hint stays exact over any mix of steps: after `moves` steps (no
/// more than there are hunks) from an iterator over `hunks`, the iterator has
/// `hunks.len() - moves.len()` hunks left, which `size_hint` and `len` report;
/// of any further steps `more`, in any mix, exactly the first that many yield
/// a hunk, and every later one yields `None`.
pub proof fn lemma_size_hint_exact_after_moves(
    it: BlameIter,
    hunks: Seq<BlameHunk>,
    moves: Seq<bool>,
    more: Seq<bool>,
    j: int,
)
    requires
        it.remaining() == remaining_after(hunks, moves),
        moves.len() <= hunks.len(),
        0 <= j < more.len(),
    ensures
        it.remaining().len() == hunks.len() - moves.len(),
        item_at_move(hunks, moves + more, moves.len() + j) is Some <==> j < hunks.len()
            - moves.len(),
{
    lemma_remaining_after_moves(hunks, moves);
    let all = moves + more;
    let i = moves.len() + j;
    if i < hunks.len() {
        let pre = all.take(i + 1);
        assert(pre.take(i) =~= all.take(i));
        assert(pre[i] == all[i]);
        lemma_each_move_yields_its_hunk(hunks, pre, i);
    } else {
        lemma_exhausted_stays_exhausted(hunks, all, i);
    }
}

/// Steps all from the front yield the hunks in order: step `j` yields the
/// hunk at position `j`.
pub proof fn lemma_front_steps_in_order(n: int, moves: Seq<bool>, j: int)
    requires
        forall|k: int| 0 <= k < moves.len() ==> moves[k],
        0 <= j < moves.len(),
    ensures
        move_index(n, moves, j) == j,
{
    lemma_counts_add_up(moves.take(j));
    lemma_no_back_steps(moves.take(j));
}

/// Steps all from the back yield the hunks in reverse order: step `j` yields
/// the hunk at position `n - 1 - j`.
pub proof fn lemma_back_steps_in_reverse(n: int, moves: Seq<bool>, j: int)
    requires
        forall|k: int| 0 <= k < moves.len() ==> !moves[k],
        0 <= j < moves.len(),
    ensures
        move_index(n, moves, j) == n - 1 - j,
{
    lemma_counts_add_up(moves.take(j));
    lemma_no_front_steps(moves.take(j));
}

proof fn lemma_no_back_steps(moves: Seq<bool>)
    requires
        forall|k: int| 0 <= k < moves.len() ==> moves[k],
    ensures
        count_back(moves) == 0,
    decreases moves.len(),
{
    if moves.len() > 0 {
        lemma_no_back_steps(moves.drop_last());
    }
}

proof fn lemma_no_front_steps(moves: Seq<bool>)
    requires
        forall|k: int| 0 <= k < moves.len() ==> !moves[k],
    ensures
        count_front(moves) == 0,
    decreases moves.len(),
{
    if moves.len() > 0 {
        lemma_no_front_steps(moves.drop_last());
    }
}

/// Blame results for a file.
pub struct Blame {
    hunks: Vec<BlameHunk>,
}

impl View for Blame {
    type V = Seq<BlameHunk>;

    closed spec fn view(&self) -> Seq<BlameHunk> {
        self.hunks@
    }
}

impl Blame {
    #[verifier::type_invariant]
    spec fn well_formed(self) -> bool {
        hunks_well_formed(self.hunks@)
    }

    /// Creates blame results from the hunks of a file. The hunks must be in
    /// order of their lines and must not overlap, there must be at most
    /// `u32::MAX` of them, and each must start at line 1 or later and end
    /// within `usize`; otherwise an
    /// error of code `GenericError` and class `Invalid` is returned.
    pub fn new(hunks: Vec<BlameHunk>) -> (r: Result<Blame, Error>)
        ensures
            r is Ok <==> hunks_well_formed(hunks@),
            r matches Ok(b) ==> b@ == hunks@,
            r matches Err(e) ==> e.spec_code() == ErrorCode::GenericError && e.spec_class()
                == ErrorClass::Invalid && malformed_hunks_message(e.spec_message()),
            hunks@.len() > u32::MAX ==> (r matches Err(e) && e.spec_message()
                == "too many blame hunks"@),
            r is Ok <==> (hunks@.len() <= u32::MAX && (forall|i: int|
                0 <= i < hunks@.len() ==> 1 <= (#[trigger] hunks@[i]).final_start_line_number
                    && hunks@[i].final_start_line_number + hunks@[i].lines_in_hunk <= usize::MAX)
                && (forall|i: int, j: int|
                0 <= i < j < hunks@.len() ==> (#[trigger] hunks@[i]).final_start_line_number
                    + hunks@[i].lines_in_hunk <= (#[trigger] hunks@[j]).final_start_line_number)),
    {
        let n = hunks.len();
        if n > 4294967295 {
            return Err(
                Error::new(ErrorCode::GenericError, ErrorClass::Invalid, "too many blame hunks"),
            );
        }
        let mut prev_end: usize = 0;
        let mut k: usize = 0;
        while k < n
            invariant
                n == hunks@.len(),
                n <= u32::MAX,
                k <= n,
                forall|i: int| 0 <= i < k ==> hunk_end(#[trigger] hunks@[i]) <= usize::MAX,
                forall|i: int| 0 <= i < k ==> 1 <= (#[trigger] hunks@[i]).final_start_line_number,
                forall|i: int, j: int|
                    0 <= i < j < k ==> hunk_end(#[trigger] hunks@[i])
                        <= (#[trigger] hunks@[j]).final_start_line_number,
                forall|i: int| 0 <= i < k ==> hunk_end(#[trigger] hunks@[i]) <= prev_end,
                k > 0 ==> hunk_end(hunks@[k - 1]) == prev_end,
            decreases n - k,
        {
            let start = hunks[k].final_start_line_number;
            let lines = hunks[k].lines_in_hunk;
            if start == 0 {
                return Err(
                    Error::new(
                        ErrorCode::GenericError,
                        ErrorClass::Invalid,
                        "blame hunk starts before line 1",
                    ),
                );
            }
            if k > 0 && start < prev_end {
                return Err(
                    Error::new(
                        ErrorCode::GenericError,
                        ErrorClass::Invalid,
                        "blame hunks overlap or are out of order",
                    ),
                );
            }
            if start > usize::MAX - lines {
                return Err(
                    Error::new(
                        ErrorCode::GenericError,
                        ErrorClass::Invalid,
                        "blame hunk ends past the last line number",
                    ),
                );
            }
            prev_end = start + lines;
            k = k + 1;
        }
        Ok(Blame { hunks })
    }

    /// Get blame data for a file that has been modified in memory.
    ///
    /// `self` is the blame of the committed file, and `hunks` are the hunks
    /// that the blame engine assigned to the lines of `buffer`, where lines
    /// that differ from the committed version carry a zero id as their final
    /// commit. An empty buffer is refused with code `GenericError`, class
    /// `Invalid` and the message "buffer cannot be empty", whatever `hunks`
    /// hold; otherwise the result is the blame of those hunks, as `new` gives it.
    pub fn blame_buffer(&self, buffer: &[u8], hunks: Vec<BlameHunk>) -> (r: Result<Blame, Error>)
        ensures
            buffer@.len() == 0 ==> (r matches Err(e) && e.spec_code() == ErrorCode::GenericError
                && e.spec_class() == ErrorClass::Invalid && e.spec_message()
                == "buffer cannot be empty"@),
            buffer@.len() > 0 ==> (r is Ok <==> hunks_well_formed(hunks@)),
            buffer@.len() > 0 ==> (r matches Ok(b) ==> b@ == hunks@),
            buffer@.len() > 0 ==> (r matches Err(e) ==> e.spec_code() == ErrorCode::GenericError
                && e.spec_class() == ErrorClass::Invalid && malformed_hunks_message(
                e.spec_message(),
            ) && e.spec_message() != "buffer cannot be empty"@),
    {
        if buffer.len() == 0 {
            return Err(
                Error::new(ErrorCode::GenericError, ErrorClass::Invalid, "buffer cannot be empty"),
            );
        }
        proof {
            reveal_strlit("buffer cannot be empty");
            reveal_strlit("too many blame hunks");
            reveal_strlit("blame hunk starts before line 1");
            reveal_strlit("blame hunks overlap or are out of order");
            reveal_strlit("blame hunk ends past the last line number");
            assert("buffer cannot be empty"@.len() == 22);
            assert("too many blame hunks"@.len() == 20);
            assert("blame hunk starts before line 1"@.len() == 31);
            assert("blame hunks overlap or are out of order"@.len() == 39);
            assert("blame hunk ends past the last line number"@.len() == 41);
        }
        Blame::new(hunks)
    }

    /// Gets the number of hunks that exist in the blame structure.
    pub fn len(&self) -> (n: usize)
        ensures
            n == self@.len(),
            hunks_well_formed(self@),
    {
        proof {
            use_type_invariant(self);
        }
        self.hunks.len()
    }

    /// Return `true` is there is no hunk in the blame structure.
    pub fn is_empty(&self) -> (r: bool)
        ensures
            r == (self@.len() == 0),
    {
        self.len() == 0
    }

    /// Gets the blame hunk at the given index, or `None` if the index is not
    /// below the number of hunks.
    pub fn get_index(&self, index: usize) -> (r: Option<&BlameHunk>)
        ensures
            lends(r, hunk_at_index(self@, index)),
            r is Some <==> index < self@.len(),
    {
        if index < self.hunks.len() {
            Some(&self.hunks[index])
        } else {
            None
        }
    }

    /// Gets the hunk that relates to the given line number (counting from 1)
    /// in the newest commit: the hunk that covers it, or `None` if none does.
    pub fn get_line(&self, lineno: usize) -> (r: Option<&BlameHunk>)
        ensures
            lends(r, hunk_at_line(self@, lineno as int)),
            lineno == 0 ==> r is None,
            r matches Some(h) ==> (h.final_start_line_number <= lineno < h.final_start_line_number
                + h.lines_in_hunk && exists|i: int| 0 <= i < self@.len() && self@[i] == *h),
            r is None <==> forall|i: int|
                0 <= i < self@.len() ==> !((#[trigger] self@[i]).final_start_line_number <= lineno
                    < self@[i].final_start_line_number + self@[i].lines_in_hunk),
    {
        proof {
            use_type_invariant(self);
        }
        let ghost hunks = self.hunks@;
        let mut lo: usize = 0;
        let mut hi: usize = self.hunks.len();
        while lo < hi
            invariant
                hunks == self.hunks@,
                hunks_well_formed(hunks),
                lo <= hi <= hunks.len(),
                forall|i: int| 0 <= i < lo ==> hunk_end(#[trigger] hunks[i]) <= lineno,
                forall|i: int| hi <= i < hunks.len() ==> lineno < (#[trigger] hunks[i]).final_start_line_number,
            decreases hi - lo,
        {
            let mid = lo + (hi - lo) / 2;
            let start = self.hunks[mid].final_start_line_number;
            let lines = self.hunks[mid].lines_in_hunk;
            if lineno < start {
                proof {
                    assert forall|i: int| mid <= i < hunks.len() implies lineno < (
                    #[trigger] hunks[i]).final_start_line_number by {
                        lemma_hunks_ordered(hunks, mid as int, i);
                    }
                }
                hi = mid;
            } else if lineno - start >= lines {
                proof {
                    assert forall|i: int| 0 <= i <= mid implies hunk_end(#[trigger] hunks[i])
                        <= lineno by {
                        lemma_hunks_ordered(hunks, i, mid as int);
                    }
                }
                lo = mid + 1;
            } else {
                proof {
                    lemma_hunk_at_line_finds_covering_hunk(hunks, lineno as int, mid as int);
                }
                return Some(&self.hunks[mid]);
            }
        }
        proof {
            assert(!some_hunk_covers(hunks, lineno as int));
        }
        None
    }

    /// Returns an iterator over the hunks in this blame.
    pub fn iter(&self) -> (it: BlameIter<'_>)
        ensures
            it.remaining() == self@,
    {
        let n = self.len();
        BlameIter { blame: self, front: 0, back: n }
    }
}

/// An iterator over the hunks in a blame.
pub struct BlameIter<'blame> {
    blame: &'blame Blame,
    front: usize,
    back: usize,
}

impl<'blame> BlameIter<'blame> {
    #[verifier::type_invariant]
    spec fn in_range(self) -> bool {
        &&& self.front <= self.back <= self.blame@.len()
        &&& hunks_well_formed(self.blame@)
    }

    /// The hunks that the iterator has yet to yield, front first.
    pub closed spec fn remaining(self) -> Seq<BlameHunk> {
        self.blame@.subrange(self.front as int, self.back as int)
    }

    /// Yields the next hunk from the front, or `None` once every hunk was yielded.
    pub fn next(&mut self) -> (r: Option<&'blame BlameHunk>)
        ensures
            lends(r, step_item(old(self).remaining(), true)),
            final(self).remaining() == take_step(old(self).remaining(), true),
    {
        proof {
            use_type_invariant(&*self);
        }
        if self.front < self.back {
            let i = self.front;
            self.front = self.front + 1;
            let blame: &'blame Blame = self.blame;
            let r = blame.get_index(i);
            proof {
                assert(self.remaining() =~= old(self).remaining().drop_first());
            }
            r
        } else {
            None
        }
    }

    /// Yields the next hunk from the back, or `None` once every hunk was yielded.
    pub fn next_back(&mut self) -> (r: Option<&'blame BlameHunk>)
        ensures
            lends(r, step_item(old(self).remaining(), false)),
            final(self).remaining() == take_step(old(self).remaining(), false),
    {
        proof {
            use_type_invariant(&*self);
        }
        if self.front < self.back {
            self.back = self.back - 1;
            let i = self.back;
            let blame: &'blame Blame = self.blame;
            let r = blame.get_index(i);
            proof {
                assert(self.remaining() =~= old(self).remaining().drop_last());
            }
            r
        } else {
            None
        }
    }

    /// The bounds on the number of hunks left: both are exactly that number.
    pub fn size_hint(&self) -> (r: (usize, Option<usize>))
        ensures
            r.0 == self.remaining().len(),
            r.1 == Some(self.remaining().len() as usize),
    {
        proof {
            use_type_invariant(self);
        }
        let n = self.back - self.front;
        (n, Some(n))
    }

    /// The number of hunks left.
    pub fn len(&self) -> (n: usize)
        ensures
            n == self.remaining().len(),
    {
        proof {
            use_type_invariant(self);
        }
        self.back - self.front
    }

    /// Consumes the iterator, counting the hunks it yields.
    pub fn count(self) -> (n: usize)
        ensures
            n == self.remaining().len(),
    {
        proof {
            use_type_invariant(&self);
        }
        let ghost total = self.remaining().len();
        let mut it = self;
        let mut n: usize = 0;
        loop
            invariant
                n + it.remaining().len() == total,
                total <= u32::MAX,
            ensures
                n == total,
            decreases it.remaining().len(),
        {
            match it.next() {
                Some(_) => {
                    n = n + 1;
                },
                None => {
                    break ;
                },
            }
        }
        n
    }
}

} // verus!
