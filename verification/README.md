# wraithrun

A verified library for host-local security investigations: it turns tool
observations (listening sockets, persistence entries, privileged accounts, log
lines, file hashes) into findings with severities, confidences and evidence
pointers, and renders reports, summaries and machine-readable formats around
them. The library is written in Verus; every public function in `src/` carries a
contract that Verus proves, and the few calls into `serde_json`, `sha2`,
`uuid` and std that it makes go through small trusted wrappers whose contracts
are stated next to them.

## Layout

- `src/` — the verified library.
  - `json`, `json_text`: the JSON document model and its text form.
  - `records`, `tools`, `observe`, `sandbox`, `catalog`: parsing of host
    records, the tools' observations, the sandbox policy, the tool catalog.
  - `derive`, `report`, `summary`, `confidence`, `templates`, `react`, `agent`:
    finding derivation, de-duplication and ordering, summaries, investigation
    templates, the tool-calling loop as a state machine.
  - `run_report`, `output_formats`, `adapter`, `bundle`, `baseline`: report
    rendering, STIX/OCSF output, evidence bundles and their checksums.
  - `cli`, `config`, `modes`, `profiles`, `doctor`, `doctor_run`,
    `pack_doctor`, `task_input`, `tool_query`: command-line rules, layered
    settings and the doctor checks.
  - `server`, `plugin`, `time`, `digest`, `text`: run bookkeeping, plugin
    admission, timestamps, digests and text helpers.
- `tests/` — tests that run the compiled library.
- `app/` — the command-line program: argument parsing, file and process I/O,
  and the host probes, handing plain values to the library.

Laws of the library (ordering and uniqueness of findings, where each finding
points, settings precedence, sandbox denials, and others) are public proof
functions named `lemma_*` in the modules they concern.
