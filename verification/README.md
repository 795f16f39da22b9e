# esp_agent

An endpoint compliance scanning agent: it reads ESP policy files, collects
system state (registry values and subkeys, Windows services, files, TCP
listeners, Kubernetes resources, RPM packages, systemd services, sysctl parameters, SELinux),
checks it against each criterion's states, and reports one result envelope
for all policies, optionally signed with an ECDSA P-256 key.

## Layout

- `src/` is the library, written in Verus. Its functions carry contracts
  that Verus proves, except twelve small trusted wrappers around outside
  code, whose contracts Verus assumes: `sha256_digest`, `hex_encode`,
  `base64_encode`, `generate_secret`, `public_key_of`, `sign_der` and
  `new_uuid_v4` (signing), `string_from_chars`, `upper_chars` and
  `lower_chars` (text), `regex_search` (criteria) and `parse_json_members`
  (json). What their results are is stated either directly or through
  named spec functions without bodies (`sha256`,
  `p256_public_key`, `p256_der_signature`, `str_to_uppercase`,
  `str_to_lowercase`, `regex_compiles`, `regex_is_match`, `json_parse`),
  which the proofs treat as given.
  - `criteria`, `validation`, `executors`: existence, state and item checks,
    the per-object and per-criterion verdicts and their messages.
  - `contract`, `contracts`, `registry`: CTN contracts of the supported
    types and the registry of collection/execution strategies.
  - `collectors`, `commands`: what each collector runs and how it turns
    command output (`reg.exe`, `sc.exe`, PowerShell, `rpm`, `systemctl`,
    `sysctl`, `getenforce`, `kubectl`, `/proc/net/tcp`) into collected data. The
    commands themselves are run by the caller, which hands the outcome back.
  - `output`, `signing`, `json`: combined hashes, summaries, criticality
    tallies and posture weights; envelope signing; JSON members.
  - `cli`, `config`, `discovery`, `scan_api`: argument parsing, scan
    configuration and exit codes, policy file selection.
  - `text`, `numfmt`, `model`: character, number and data helpers.
- `app/` is the command-line program: file and process I/O, the adapters to
  the policy compiler and execution engine crates, console output and the
  output formats.
- `tests/` exercises the library with the real outside crates linked.

## Registered CTN types

The scanner registers nine strategies: `file_metadata`, `file_content`,
`computed_values`, `json_record`, `tcp_listener`, `k8s_resource`,
`registry`, `registry_subkeys` and `service`. A `k8s_resource` object names
a resource kind and, optionally, a namespace and a label selector; the
collector runs `kubectl get <kind> [-n <namespace>] [-l <selector>] -o json`
and hands back its output as the `json_data` record, which is then checked
like a `json_record` record.
