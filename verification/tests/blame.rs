use git2_blame::blame::{Blame, BlameIter};
use git2_blame::error::{Error, ErrorClass, ErrorCode};
use git2_blame::hunk::BlameHunk;
use git2_blame::oid::Oid;
use git2_blame::signature::Signature;

fn oid(byte: u8) -> Oid {
    Oid::from_raw_bytes([byte; 20])
}

fn sig(name: &str, email: &str) -> Signature {
    Signature::from_parts(name.as_bytes().to_vec(), email.as_bytes().to_vec(), 1_700_000_000, 60)
}

fn hunk(start: usize, lines: usize, id: u8) -> BlameHunk {
    BlameHunk {
        final_commit_id: oid(id),
        final_signature: None,
        final_committer: None,
        final_start_line_number: start,
        orig_commit_id: oid(id),
        orig_signature: None,
        orig_committer: None,
        orig_start_line_number: start,
        orig_path: Some(b"file.txt".to_vec()),
        boundary: 0,
        lines_in_hunk: lines,
        summary: None,
    }
}

fn committed_hunk() -> BlameHunk {
    BlameHunk {
        final_commit_id: oid(7),
        final_signature: Some(sig("name", "email")),
        final_committer: Some(sig("FizzBuzz", "bar@example.com")),
        final_start_line_number: 1,
        orig_commit_id: oid(7),
        orig_signature: Some(sig("name", "email")),
        orig_committer: Some(sig("FizzBuzz", "bar@example.com")),
        orig_start_line_number: 1,
        orig_path: Some(b"foo/bar".to_vec()),
        boundary: 0,
        lines_in_hunk: 0,
        summary: Some(b"commit".to_vec()),
    }
}

fn three_hunks() -> Blame {
    // lines 1..=3, 4..=4, 7..=8 (lines 5 and 6 belong to no hunk)
    Blame::new(vec![hunk(1, 3, 1), hunk(4, 1, 2), hunk(7, 2, 3)]).ok().unwrap()
}

fn count_all(mut it: BlameIter<'_>) -> usize {
    let mut n = 0;
    while it.next().is_some() {
        n += 1;
    }
    n
}

#[test]
fn smoke() {
    let blame = Blame::new(vec![committed_hunk()]).ok().unwrap();

    assert_eq!(blame.len(), 1);
    assert_eq!(blame.iter().count(), 1);

    let hunk = blame.get_index(0).unwrap();
    assert_eq!(hunk.final_commit_id(), oid(7));
    assert_eq!(hunk.final_signature().unwrap().name(), Ok("name"));
    assert_eq!(hunk.final_signature().unwrap().email(), Ok("email"));
    assert_eq!(hunk.orig_signature().unwrap().name(), Ok("name"));
    assert_eq!(hunk.orig_signature().unwrap().email(), Ok("email"));
    assert_eq!(hunk.final_committer().unwrap().name(), Ok("FizzBuzz"));
    assert_eq!(hunk.final_committer().unwrap().email(), Ok("bar@example.com"));
    assert_eq!(hunk.orig_committer().unwrap().name(), Ok("FizzBuzz"));
    assert_eq!(hunk.orig_committer().unwrap().email(), Ok("bar@example.com"));
    assert_eq!(hunk.final_start_line(), 1);
    assert_eq!(hunk.path(), Some(&b"foo/bar"[..]));
    assert_eq!(hunk.lines_in_hunk(), 0);
    assert_eq!(hunk.summary(), Ok(Some("commit")));
    assert!(!hunk.is_boundary());

    let mut added = hunk_with_zero_id(1, 1);
    added.orig_path = Some(b"foo/bar".to_vec());
    let blame_buffer = blame
        .blame_buffer("\n".as_bytes(), vec![committed_hunk(), added])
        .ok()
        .unwrap();
    let line = blame_buffer.get_line(1).unwrap();

    assert_eq!(blame_buffer.len(), 2);
    assert_eq!(blame_buffer.iter().count(), 2);
    assert!(line.final_commit_id().is_zero());
}

fn hunk_with_zero_id(start: usize, lines: usize) -> BlameHunk {
    let mut h = hunk(start, lines, 0);
    h.final_commit_id = Oid::zero();
    h.orig_commit_id = Oid::zero();
    h
}

#[test]
fn buffer_signatures() {
    let mut reference = committed_hunk();
    reference.lines_in_hunk = 1;
    reference.orig_path = Some(b"README.md".to_vec());
    reference.summary = Some(b"Add README.md".to_vec());
    reference.final_committer = Some(sig("name", "email"));
    reference.orig_committer = Some(sig("name", "email"));
    let blame = Blame::new(vec![reference]).ok().unwrap();

    let hunk = blame.get_index(0).unwrap();
    {
        let final_author = hunk.final_signature().unwrap();
        assert_eq!(Ok("name"), final_author.name());
        assert_eq!(Ok("email"), final_author.email());

        let final_committer = hunk.final_committer().unwrap();
        assert_eq!(Ok("name"), final_committer.name());
        assert_eq!(Ok("email"), final_committer.email());

        let original_author = hunk.orig_signature().unwrap();
        assert_eq!(Ok("name"), original_author.name());
        assert_eq!(Ok("email"), original_author.email());

        let original_committer = hunk.orig_committer().unwrap();
        assert_eq!(Ok("name"), original_committer.name());
        assert_eq!(Ok("email"), original_committer.email());
    }

    let mut changed = hunk_with_zero_id(1, 1);
    changed.orig_start_line_number = 0;
    changed.orig_path = Some(b"README.md".to_vec());
    let arbitrary = blame.blame_buffer(b"abc123", vec![changed]).ok().unwrap();
    let hunk = arbitrary.get_index(0).unwrap();
    {
        assert!(hunk.final_commit_id().is_zero());
        assert!(hunk.orig_commit_id().is_zero());
        assert_eq!(1, hunk.final_start_line());
        assert_eq!(0, hunk.orig_start_line());
        assert_eq!(Some(&b"README.md"[..]), hunk.path());
        assert!(!hunk.is_boundary());
        assert_eq!(1, hunk.lines_in_hunk());
        assert_eq!(Ok(None), hunk.summary());
        assert_eq!(None, hunk.summary_bytes());
    }
    {
        assert!(hunk.final_signature().is_none());
        assert!(hunk.final_committer().is_none());
        assert!(hunk.orig_signature().is_none());
        assert!(hunk.orig_committer().is_none());
    }
}

#[test]
fn buffer_empty() {
    let blame = Blame::new(vec![committed_hunk()]).ok().unwrap();
    let result = match blame.blame_buffer(b"", vec![committed_hunk()]) {
        Ok(_) => panic!("Expected an error"),
        Err(e) => e,
    };
    assert_eq!(
        Error::new(ErrorCode::GenericError, ErrorClass::Invalid, "buffer cannot be empty"),
        result
    );
    assert_eq!(result.raw_code(), -1);
    assert_eq!(result.raw_class(), 3);
    assert_eq!(result.message(), "buffer cannot be empty");
}

#[test]
fn buffer_refuses_overlapping_hunks() {
    let blame = three_hunks();
    let result = blame.blame_buffer(b"x", vec![hunk(1, 3, 1), hunk(3, 1, 2)]);
    match result {
        Ok(_) => panic!("Expected an error"),
        Err(e) => {
            assert_eq!(e.code(), ErrorCode::GenericError);
            assert_eq!(e.class(), ErrorClass::Invalid);
            assert_eq!(e.message(), "blame hunks overlap or are out of order");
            assert_ne!(e.message(), "buffer cannot be empty");
        }
    }
}

#[test]
fn new_accepts_ordered_hunks_and_empty_hunks() {
    assert!(Blame::new(vec![]).is_ok());
    assert!(Blame::new(vec![hunk(1, 0, 1), hunk(1, 1, 2)]).is_ok());
    assert!(Blame::new(vec![hunk(1, 2, 1), hunk(3, 5, 2)]).is_ok());
}

#[test]
fn new_refuses_out_of_order_and_overflowing_hunks() {
    assert!(Blame::new(vec![hunk(4, 1, 1), hunk(1, 1, 2)]).is_err());
    assert!(Blame::new(vec![hunk(1, 2, 1), hunk(2, 1, 2)]).is_err());
    assert!(Blame::new(vec![hunk(1, 1, 2), hunk(1, 0, 1)]).is_err());
    let e = Blame::new(vec![hunk(usize::MAX, 1, 1)]).err().unwrap();
    assert_eq!(e.message(), "blame hunk ends past the last line number");
    assert_eq!(e.code(), ErrorCode::GenericError);
    assert_eq!(e.class(), ErrorClass::Invalid);
}

#[test]
fn len_and_is_empty() {
    let empty = Blame::new(vec![]).ok().unwrap();
    assert_eq!(empty.len(), 0);
    assert!(empty.is_empty());
    let blame = three_hunks();
    assert_eq!(blame.len(), 3);
    assert!(!blame.is_empty());
}

#[test]
fn get_index_reads_each_hunk_and_nothing_past_the_end() {
    let blame = three_hunks();
    assert_eq!(blame.get_index(0).unwrap().final_start_line(), 1);
    assert_eq!(blame.get_index(1).unwrap().final_start_line(), 4);
    assert_eq!(blame.get_index(2).unwrap().final_start_line(), 7);
    assert!(blame.get_index(3).is_none());
    assert!(blame.get_index(usize::MAX).is_none());
}

#[test]
fn get_index_past_the_end_is_none_for_large_indexes() {
    let blame = three_hunks();
    if let Some(big) = 1usize.checked_shl(32) {
        assert!(blame.get_index(big).is_none());
        assert!(blame.get_index(big + 2).is_none());
    }
    assert!(blame.get_index(u32::MAX as usize).is_none());
}

#[test]
fn new_refuses_a_hunk_at_line_zero() {
    let e = Blame::new(vec![hunk(0, 1, 1)]).err().unwrap();
    assert_eq!(e.message(), "blame hunk starts before line 1");
    assert_eq!(e.code(), ErrorCode::GenericError);
    assert_eq!(e.class(), ErrorClass::Invalid);
    assert!(Blame::new(vec![hunk(1, 1, 1), hunk(0, 0, 2)]).is_err());
}

#[test]
fn mixed_iteration_yields_each_hunk_once() {
    let blame = Blame::new(vec![hunk(1, 1, 1), hunk(2, 1, 2), hunk(3, 1, 3), hunk(4, 1, 4)])
        .ok()
        .unwrap();
    let mut it = blame.iter();
    let mut seen = Vec::new();
    let steps = [false, true, false, true];
    for (k, from_front) in steps.iter().enumerate() {
        assert_eq!(it.size_hint(), (4 - k, Some(4 - k)));
        let h = if *from_front { it.next() } else { it.next_back() };
        seen.push(h.unwrap().final_start_line());
    }
    assert_eq!(seen, vec![4, 1, 3, 2]);
    assert!(it.next().is_none());
    assert!(it.next_back().is_none());

    let mut back = blame.iter();
    let mut reversed = Vec::new();
    while let Some(h) = back.next_back() {
        reversed.push(h.final_start_line());
    }
    assert_eq!(reversed, vec![4, 3, 2, 1]);
}

#[test]
fn get_line_finds_the_covering_hunk() {
    let blame = three_hunks();
    assert!(blame.get_line(0).is_none());
    for line in 1..=3 {
        assert_eq!(blame.get_line(line).unwrap().final_commit_id(), oid(1));
    }
    assert_eq!(blame.get_line(4).unwrap().final_commit_id(), oid(2));
    assert!(blame.get_line(5).is_none());
    assert!(blame.get_line(6).is_none());
    assert_eq!(blame.get_line(7).unwrap().final_commit_id(), oid(3));
    assert_eq!(blame.get_line(8).unwrap().final_commit_id(), oid(3));
    assert!(blame.get_line(9).is_none());
    assert!(blame.get_line(usize::MAX).is_none());
}

#[test]
fn get_line_skips_hunks_without_lines() {
    let blame = Blame::new(vec![hunk(1, 0, 1), hunk(1, 1, 2)]).ok().unwrap();
    assert_eq!(blame.get_line(1).unwrap().final_commit_id(), oid(2));
    let empty = Blame::new(vec![]).ok().unwrap();
    assert!(empty.get_line(1).is_none());
}

#[test]
fn iter_yields_hunks_in_order_from_both_ends() {
    let blame = three_hunks();
    let mut it = blame.iter();
    assert_eq!(it.size_hint(), (3, Some(3)));
    assert_eq!(it.len(), 3);
    assert_eq!(it.next().unwrap().final_start_line(), 1);
    assert_eq!(it.next_back().unwrap().final_start_line(), 7);
    assert_eq!(it.size_hint(), (1, Some(1)));
    assert_eq!(it.next().unwrap().final_start_line(), 4);
    assert_eq!(it.len(), 0);
    assert!(it.next().is_none());
    assert!(it.next_back().is_none());
    assert!(it.next().is_none());
    assert_eq!(it.size_hint(), (0, Some(0)));
}

#[test]
fn iter_count_equals_len() {
    let blame = three_hunks();
    assert_eq!(blame.iter().count(), blame.len());
    assert_eq!(count_all(blame.iter()), 3);
    let mut it = blame.iter();
    it.next();
    assert_eq!(it.count(), 2);
}
