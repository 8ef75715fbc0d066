# cargo_berth

Cooperative path reservations for several git worktrees working on one repository:
the reservation lifecycle, the integration evidence that settles it, the decisions a
reconciliation pass makes, and every response a verb can give, with its text, status and
process outcome.

The library under `src/` is written in Verus and verified: each public function states
what it returns in its contract, and the laws that relate several functions are public
proof functions beside them.

- `ids`, `scope`, `text`: identities, reservation scopes, wire order of identities, and
  verified text assembly.
- `reservation`: lifecycle transitions, integration evidence, merge extents, edit-blocking
  partitions, and what an acting checkout's HEAD already contains of foreign work.
- `presentation`, `output`: the response envelope, its hook-facing renderings, the
  responses of `check`, `claim`, `drift`, `release`, `resolve`, `sequence`, `integrate`
  and the board, coordination-identity refusals, and the output-contract schemas as JSON
  values with the transform that lets one closed scalar select an object's shape.
- `reconcile`: the comparison budget, the commits a trunk observation classifies and their
  reachability, evidence revalidation, rewrite following and the per-reservation rewrite
  preflight, successor incorporation, the branch that judges each reservation and the
  branches still waiting for a cover, the observation a proposed branch update would make,
  the standing of cross-target predecessors, the initial plan and the committed report of a
  pass, settlement with the branch work it cannot prove, and reconciliation errors.
- `recovery`: recovery requests, the validation a reservation resolution runs before its
  append, incursion resolutions and renewals.

Reads of git and of the journal are handed to these functions by their callers, as values
or as functions whose answers the contracts quantify over. `app/` holds what stays outside
the verifier: the harness event a process answers, the serde shapes and JSON schemas of the
response vocabulary and of integration evidence, and the conversion between serde_json
values and the library's JSON model. `tests/` exercises the library on concrete values.
