# git2_blame

Blame results for a file, with proved contracts: the hunks of a file (runs of
lines with the commit that last changed them), looked up by index and by line
number, iterated from both ends, the blame of an in-memory buffer, and the
options that control blaming.

- `src/blame.rs`: `Blame`, its well-formedness (hunks starting at line 1 or later, in order of their lines,
  not overlapping), lookups, `blame_buffer`, and `BlameIter`.
- `src/hunk.rs`: `BlameHunk` and its accessors, including the UTF-8 summary.
- `src/options.rs`: `BlameOptions`, the flag bits and their laws.
- `src/oid.rs`, `src/signature.rs`, `src/error.rs`: ids, signatures, errors.
- `src/text.rs`: the trusted calls into `std::str` for UTF-8 decoding.
- `app/lib.rs`: standard iterator traits over the hunks, and hunk paths as `Path`s.

The hunks themselves come from a blame engine outside this crate.
