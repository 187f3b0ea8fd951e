# quilt_domain

The domain layer of the Quilt knowledge graph: blocks and pages, content
segments and references, typed property definitions and their merging,
canonicalization patches and presets, entity classes, template contracts
and projection contracts.

The library in `src/` is written in Verus: every function states what it
returns or changes in `requires` / `ensures` clauses over mathematical
models (`Seq`, `Map`, spec functions), and Verus proves each body against
its contract. Laws that relate several operations (a reference index's
mirror invariant, last-write-wins merging, the task-marker state machine,
set union of multi-valued properties, round trips of every enum's string
form, and others) are public proof functions next to the code they are
about.

Layout:

- `src/` — the verified library. Calls into outside crates (`chrono`,
  `chrono-tz`, `regex`, `url`, `uuid`) sit behind small trusted wrappers
  whose contracts name or describe what the outside function returns.
- `tests/` — ordinary Rust tests of the library on concrete values.
- `app/` — the unverified parts around the library: serde forms of its
  types, `Display` / `Error` forms of its errors, values that carry
  floating-point numbers, closures stored on projection contracts, and the
  asynchronous repository-backed validators and resolver.
