# driven

Lane/pass strategy for DX worker orchestration: workers claim numbered
lanes, advance through passes on the same lane, prove each pass with a
canonical receipt, and hand the next pass over with a durable handoff.

## Layout

- `src/` is the library, written in Verus. Every function there carries a
  contract and is verified, except four small wrappers around `blake3`,
  `regex`, `String::push` and `format!`, whose contracts are
  trusted and whose doc comments say what they claim.
  - `strategy/identity.rs`: lane and pass numbers, worker ids, claim ids and
    tokens, session ids, lane claims.
  - `strategy/receipt.rs`, `strategy/evidence.rs`, `strategy/receipt_render.rs`,
    `strategy/redaction.rs`: proof receipts, command evidence, their canonical
    ids and their masked Markdown and JSON renderings.
  - `strategy/handoff.rs`: next-pass handoffs and their persisted form.
  - `strategy/worktree.rs`, `strategy/detection.rs`: worktree metadata, its
    identity, and the isolation plan, computed from git's answers.
  - `strategy/orchestration.rs`, `strategy/store.rs`, `strategy/session.rs`,
    `strategy/artifacts.rs`, `strategy/state_lock.rs`: the lane/pass store,
    which decides each transition from a snapshot of the state directory and
    says what to record.
  - `cli/`: what the command-line interface computes and renders.
  - `json.rs`, `text.rs`, `digest.rs`, `error.rs`: JSON rendering, text
    helpers, BLAKE3 digests and the error type.
- `app/` is the `driven` command-line program: argument parsing, git and
  process execution, the random draw of session ids, the state directory's
  files and lock, and the JSON forms of the library's types.
- `tests/` exercises the library from outside.
