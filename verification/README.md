# kiln

Kiln turns a source repository into a container image: it detects the
language, plans a multi-stage build, and renders the plan as a plain
Dockerfile.

This crate is the planning core, written in Verus. Every function states
what it returns in its contract, and every one but four small wrappers around
`serde_json`, `toml` and `char::is_alphanumeric` (whose contracts are trusted,
with doc comments saying what they claim) is proved against it:

- `project`: the snapshot of a project's files that detection reads.
- `detect`: the application context, provider selection, and folding user
  overrides (hooks, apt packages, base images, `PATH`, secrets) into a plan.
- `providers`: one module per ecosystem, each with the spec of its plan;
  `providers::versions` resolves runtime versions from version files.
- `dockerfile`: rendering a plan, with proofs that untrusted text cannot
  break a Dockerfile line and that escaped values and `CMD` arrays read
  back as JSON to what they were made from.
- `json`: reading JSON string literals and string arrays, the reading those
  proofs are stated against.
- `dockerfile_lines`: what the rendered text is made of: the lines it
  splits into, one `FROM` line per stage in order, and the build-time
  environment inside the build stage.
- `sanitize`: the character whitelists for values that reach the Dockerfile.
- `overrides`, `config`: layering of CLI flags, `KILN_*` variables and the
  configuration file.
- `cli`: the command line's checks on untrusted arguments, the steps of
  fetching a git source, and the `buildctl` argument list.
- `structured`, `text`: JSON/TOML lookups (through `serde_json` and `toml`)
  and character-level text operations.

`app/` holds the `kiln` binary: argument parsing, reading the project from
disk, loading `kiln.json` / `kiln.toml`, running `git` and `buildctl`.
