use git2_blame::error::{ErrorClass, ErrorCode};
use git2_blame::hunk::BlameHunk;
use git2_blame::oid::Oid;
use git2_blame::signature::Signature;

fn plain_hunk() -> BlameHunk {
    BlameHunk {
        final_commit_id: Oid::from_raw_bytes([1; 20]),
        final_signature: None,
        final_committer: None,
        final_start_line_number: 3,
        orig_commit_id: Oid::from_raw_bytes([2; 20]),
        orig_signature: None,
        orig_committer: None,
        orig_start_line_number: 5,
        orig_path: None,
        boundary: 0,
        lines_in_hunk: 4,
        summary: None,
    }
}

#[test]
fn getters_read_the_fields() {
    let h = plain_hunk();
    assert_eq!(h.final_commit_id(), Oid::from_raw_bytes([1; 20]));
    assert_eq!(h.orig_commit_id(), Oid::from_raw_bytes([2; 20]));
    assert_eq!(h.final_start_line(), 3);
    assert_eq!(h.orig_start_line(), 5);
    assert_eq!(h.lines_in_hunk(), 4);
    assert_eq!(h.path(), None);
    assert_eq!(h.summary_bytes(), None);
    assert_eq!(h.summary(), Ok(None));
}

#[test]
fn boundary_is_exactly_one() {
    let mut h = plain_hunk();
    assert!(!h.is_boundary());
    h.boundary = 1;
    assert!(h.is_boundary());
    h.boundary = 2;
    assert!(!h.is_boundary());
}

#[test]
fn summary_text_and_bytes() {
    let mut h = plain_hunk();
    h.summary = Some("Fix the parser".as_bytes().to_vec());
    assert_eq!(h.summary(), Ok(Some("Fix the parser")));
    assert_eq!(h.summary_bytes(), Some("Fix the parser".as_bytes()));
    h.summary = Some("héllo".as_bytes().to_vec());
    assert_eq!(h.summary(), Ok(Some("héllo")));
    h.summary = Some(Vec::new());
    assert_eq!(h.summary(), Ok(Some("")));
}

#[test]
fn summary_that_is_not_utf8_is_an_error() {
    let mut h = plain_hunk();
    h.summary = Some(vec![0x66, 0xff, 0x6f]);
    let e = h.summary().err().unwrap();
    assert_eq!(e.code(), ErrorCode::GenericError);
    assert_eq!(e.class(), ErrorClass::Unclassified);
    assert_eq!(e.raw_code(), -1);
    assert_eq!(e.raw_class(), 0);
    assert!(!e.message().is_empty());
    assert_eq!(h.summary_bytes(), Some(&[0x66u8, 0xff, 0x6f][..]));
}

#[test]
fn path_and_signatures() {
    let mut h = plain_hunk();
    h.orig_path = Some(b"src/lib.rs".to_vec());
    h.final_signature = Some(Signature::from_parts(b"A".to_vec(), b"a@x".to_vec(), 10, -120));
    h.orig_committer = Some(Signature::from_parts(vec![0xfe], b"c@x".to_vec(), 20, 0));
    assert_eq!(h.path(), Some(&b"src/lib.rs"[..]));
    let s = h.final_signature().unwrap();
    assert_eq!(s.name(), Ok("A"));
    assert_eq!(s.email(), Ok("a@x"));
    assert_eq!(s.seconds(), 10);
    assert_eq!(s.offset_minutes(), -120);
    assert!(h.final_committer().is_none());
    assert!(h.orig_signature().is_none());
    let c = h.orig_committer().unwrap();
    assert!(c.name().is_err());
    assert_eq!(c.name_bytes(), &[0xfe][..]);
    assert_eq!(c.email_bytes(), b"c@x");
}

#[test]
fn oid_zero_and_bytes() {
    assert!(Oid::zero().is_zero());
    assert_eq!(Oid::zero().as_bytes(), &[0u8; 20][..]);
    let mut bytes = [0u8; 20];
    bytes[19] = 1;
    let id = Oid::from_raw_bytes(bytes);
    assert!(!id.is_zero());
    assert_eq!(id.as_bytes(), &bytes[..]);
}
