# sensitive-audit

Finds known sensitive file content in a copied directory tree, even when the
files were renamed or moved. Sensitive source files are indexed by size,
partial BLAKE3 hash (of the first `partial_bytes` bytes) and full BLAKE3
hash; destination files then pass a staged filter

```text
file size -> partial BLAKE3 hash -> full BLAKE3 hash
```

and confirmed matches are reported as JSON lines and, optionally, CSV.

## Layout

- `src/` is the library, written in Verus with its contracts proved:
  - `index`: the index of sensitive files, grouped by size, with the size
    stage and the exact lookup of partial candidates and full matches;
  - `pipeline`: the scan of one destination file as a machine driven by the
    caller (cache lookup, partial pass, full pass, report);
  - `run`: a whole scan (`ScanRun`): the metrics, the open file scan and
    the jobs out with the hash workers, with the run-wide counter bounds
    kept at every step;
  - `scan`: scan metrics, hash-worker decisions, commit batching;
  - `indexing`: the decisions and metrics of an index run;
  - `hashing`: streaming BLAKE3 hashers for the partial and full hashes, and
    file fingerprints;
  - `text`: decimal numbers, CSV fields, path separators, list-file lines;
  - `paths`, `convert`, `clock`, `settings`, `error`.
- `app/` is the command-line program around it: argument parsing, SQLite
  storage, directory walking, file reading, worker threads and output.
- `tests/` runs the library on concrete values.
