# kuro

An OCI container runtime (`create`, `start`, `state`, `kill`, `delete`)
whose decisions, formats and state rules are a Verus-verified library.

- `src/` — the verified library: the command checks and the container
  lifecycle (`cli`, `container`), the cgroup v2 control-file writes
  (`cgroups`), the configuration model (`config`), device nodes (`devices`),
  mounts, id maps, security settings and namespace steps (`namespaces`), the
  synchronisation-pipe wire format (`sync`), and the text helpers they share
  (`text`).
- `tests/` — tests of the library on concrete values.
- `app/` — the program: command-line parsing, reading the OCI
  configuration and state files, and every system call (clone, mount,
  pivot_root, setns, seccomp, capabilities, terminals), driven by the
  library's decisions.
