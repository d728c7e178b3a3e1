# sealtask

The decision logic of the SealTask command-line client and agent runner,
written in Verus and proved against its contracts.

## Layout

- `src/` — the verified library.
  - `input.rs` — strict JSONL batch input: line and size limits, operation
    validation, duplicate detection, canonical digest and checkpoint keys.
  - `checkpoint.rs` — batch checkpoints: entry and journal validation,
    journal replay, resume state, the journal writer's state machine and
    path normalization for checkpoint locations.
  - `batch.rs`, `schedule.rs` — operation outcomes and their accounting,
    the scheduler's bookkeeping and job limit, resume-plan reconciliation
    and signal handling decisions.
  - `resolution.rs`, `operation.rs` — the step machines that resolve a
    batch operation's selectors and carry one operation through its
    checkpoint records, preparation and execution.
  - `activity.rs` — activity paging rules, activity rows and the live
    renderer's state.
  - `auth.rs`, `login.rs`, `agents.rs`, `agent_commands.rs` — login input,
    the `auth login` step machine (reuse of a stored login, MFA retries),
    status and session messages, agent enrollment and approval checks, and the step
    machine of the `agents register`, `approve` and `revoke` commands.
  - `document.rs` — the private document shown for a decrypted task.
  - `service.rs`, `agent.rs`, `claim.rs`, `harness.rs`, `process.rs` — the
    agent runner: retry and backoff timing, token freshness, identity
    rotation, claim checks and prompt composition, harness summaries and
    process-tree ownership; `run.rs` supervises a run's worktree setup and
    decides what a finished claim reports.
  - `codec.rs`, `text.rs`, `error.rs`, `attachment.rs` — encodings, text
    helpers (including the terminal-safe rendering of untrusted text),
    error values and attachment file names.
- `tests/` — tests of the library's public functions.
- `app/` — the `sealtask` command line: file and standard-input access and
  JSON encoding and decoding around the library.

Every function under `src/` is verified by Verus; the calls into `sha2`,
`base64`, `uuid`, `zeroize`, `chrono` and a few `std` functions go through
small trusted wrappers whose contracts are documented beside them.
