# marf-squash

Boundary resolution and configuration policy for producing Genesis State
Snapshots (GSS) from the chainstate of a Stacks node, verified with Verus.

A GSS is taken at the start of a tenure. Before the three MARFs (Clarity, Index,
Sortition) are squashed there, the tenure has to pass a number of checks: it is
one burn block long, its blocks form an unbroken chain, its burn view is
canonical and the same throughout, and the boundary leads a booting node back to
the last block of the tenure.

- `src/` is the verified library. It performs no reads of its own. A resolution
  names the read that it waits for and takes the answer; the laws in
  `src/laws.rs` prove that it ends within a bounded number of reads, that its
  outcome is that of the checks in their order, and that it succeeds exactly on
  the tenures that can be squashed.
- `app/` performs the reads on the source chainstate, sortition DB, index DB and
  node config, with `stackslib`, `stacks_common` and `rusqlite`.
- `tests/` runs the library on concrete values.
