use git2_blame::oid::Oid;
use git2_blame::options::{
    BlameOptions, BLAME_FIRST_PARENT, BLAME_IGNORE_WHITESPACE, BLAME_NORMAL,
    BLAME_OPTIONS_VERSION, BLAME_TRACK_COPIES_ANY_COMMIT_COPIES,
    BLAME_TRACK_COPIES_SAME_COMMIT_COPIES, BLAME_TRACK_COPIES_SAME_COMMIT_MOVES,
    BLAME_TRACK_COPIES_SAME_FILE, BLAME_USE_MAILMAP,
};

#[test]
fn new_options_are_initialized() {
    let o = BlameOptions::new();
    assert_eq!(o.version(), BLAME_OPTIONS_VERSION);
    assert_eq!(o.version(), 1);
    assert_eq!(o.flags(), BLAME_NORMAL);
    assert_eq!(o.min_match_characters(), 0);
    assert!(o.newest_commit_id().is_zero());
    assert!(o.oldest_commit_id().is_zero());
    assert_eq!(o.min_line_number(), 0);
    assert_eq!(o.max_line_number(), 0);
}

#[test]
fn default_equals_new() {
    let d = BlameOptions::default();
    let n = BlameOptions::new();
    assert_eq!(d.version(), n.version());
    assert_eq!(d.flags(), n.flags());
    assert_eq!(d.min_line_number(), n.min_line_number());
    assert_eq!(d.max_line_number(), n.max_line_number());
    assert_eq!(d.newest_commit_id(), n.newest_commit_id());
}

#[test]
fn flag_values() {
    assert_eq!(BLAME_TRACK_COPIES_SAME_FILE, 1 << 0);
    assert_eq!(BLAME_TRACK_COPIES_SAME_COMMIT_MOVES, 1 << 1);
    assert_eq!(BLAME_TRACK_COPIES_SAME_COMMIT_COPIES, 1 << 2);
    assert_eq!(BLAME_TRACK_COPIES_ANY_COMMIT_COPIES, 1 << 3);
    assert_eq!(BLAME_FIRST_PARENT, 1 << 4);
    assert_eq!(BLAME_USE_MAILMAP, 1 << 5);
    assert_eq!(BLAME_IGNORE_WHITESPACE, 1 << 6);
}

#[test]
fn each_setter_sets_its_own_bit() {
    let mut o = BlameOptions::new();
    o.track_copies_same_file(true);
    assert_eq!(o.flags(), 1);
    o.track_copies_same_commit_moves(true);
    assert_eq!(o.flags(), 3);
    o.track_copies_same_commit_copies(true);
    assert_eq!(o.flags(), 7);
    o.track_copies_any_commit_copies(true);
    assert_eq!(o.flags(), 15);
    o.first_parent(true);
    assert_eq!(o.flags(), 31);
    o.use_mailmap(true);
    assert_eq!(o.flags(), 63);
    o.ignore_whitespace(true);
    assert_eq!(o.flags(), 127);
}

#[test]
fn clearing_a_flag_keeps_the_others() {
    let mut o = BlameOptions::new();
    o.first_parent(true).use_mailmap(true).ignore_whitespace(true);
    assert_eq!(o.flags(), 16 | 32 | 64);
    o.use_mailmap(false);
    assert_eq!(o.flags(), 16 | 64);
    o.use_mailmap(false);
    assert_eq!(o.flags(), 16 | 64);
    o.first_parent(false).ignore_whitespace(false);
    assert_eq!(o.flags(), 0);
}

#[test]
fn flag_sets_and_clears_several_bits() {
    let mut o = BlameOptions::new();
    o.flag(0b1010, true);
    assert_eq!(o.flags(), 0b1010);
    o.flag(0b0110, true);
    assert_eq!(o.flags(), 0b1110);
    o.flag(0b1100, false);
    assert_eq!(o.flags(), 0b0010);
}

#[test]
fn disjoint_settings_commute() {
    let mut a = BlameOptions::new();
    a.first_parent(true).track_copies_same_file(false);
    let mut b = BlameOptions::new();
    b.track_copies_same_file(false).first_parent(true);
    assert_eq!(a.flags(), b.flags());
}

#[test]
fn commits_and_lines() {
    let mut o = BlameOptions::new();
    o.newest_commit(Oid::from_raw_bytes([9; 20]))
        .oldest_commit(Oid::from_raw_bytes([3; 20]))
        .min_line(5)
        .max_line(10);
    assert_eq!(o.newest_commit_id(), Oid::from_raw_bytes([9; 20]));
    assert_eq!(o.oldest_commit_id(), Oid::from_raw_bytes([3; 20]));
    assert_eq!(o.min_line_number(), 5);
    assert_eq!(o.max_line_number(), 10);
    assert_eq!(o.flags(), 0);
}
