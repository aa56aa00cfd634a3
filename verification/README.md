# qubit_config

A configuration store with machine-checked contracts, written in Verus.

## Layout

- `src/` — the verified library.
  - `text.rs`: character-level string operations and the code-point order
    on keys.
  - `key.rs`: canonical keys and section paths, `ConfigKey`, `ConfigPath`.
  - `error.rs`: `ConfigError`, its kinds, paths and display texts.
  - `property.rs`: named values with a description and a final flag.
  - `entries.rs`: property sequences in ascending key order and the map
    they stand for.
  - `config.rs`: the store itself — lookups, writes with final-value
    protection, transactional merges, prefix traversal, subtree extraction,
    and the rebuilding of a configuration from its persisted parts. Its
    properties are kept in a vector in ascending key order: Verus proves
    nothing of a standard map keyed by strings, so the order and the
    uniqueness of keys are stated as the store's invariant instead.
  - `section.rs`: read-only views rooted at a section path.
  - `wire.rs`: limits and version rules of the persisted form.
  - `structured.rs`: the type-independent decisions of structured reads.
  - `admission.rs`: what each value of a structured read is charged as
    against the input budgets, and the bound on formatted text.
  - `budget.rs`: the byte allowance and JSON value budget of
    `qubit-budget`, as the library calls them.
  - `input_budget.rs`: input admission of a structured read — every visit
    charged against the budgets, the first refusal reported at its node.
  - `scalar_text.rs`: string reads of JSON scalars under a conversion
    policy.
  - `missing.rs`: whether a stored property counts as missing for a read.
  - `deserialize_plan.rs`: what a value deserializer hands its visitor,
    by the shape of the value.
  - `options.rs`: read policies and substitution bounds.
  - `configured.rs`: objects that carry a configuration.
  - `laws.rs`: properties that relate several operations.
- `tests/` — tests run against the compiled library.
- `app/` — JSON encoding and decoding, error display and strictly typed
  reads, around the library.
