# gateway_core

The core of an agent gateway, verified with Verus: the six-layer context
hierarchy and its resolution into a system prompt, prompt evaluation, agent
file configuration and its inheritance, relevance selection, and the decision
logic of a five-layer browser-automation pipeline (intent routing, script
generation and execution bookkeeping, the script asset store).

- `src/` is the verified library. Every public function states what it
  returns in `ensures`; laws that relate several functions are public proof
  functions (`lemma_*`). Calls into `serde_json`, `uuid`, `chrono`, `sha2`
  and the standard library go through small trusted wrappers whose doc
  comments say what is assumed of them.
- `app/` is the unverified edge: reading and writing files, YAML and JSON
  parsing into the library's types (copies carrying serde derives), the
  file-backed asset store, trace observers, and the measures kept as
  floating-point numbers.
- `tests/` runs the library on concrete values.
