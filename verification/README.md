# moss_weights

The verified core of the MOSS-TTS-Nano command-line launcher: everything it
decides about model files, checked with Verus.

- `src/manifest.rs` — the manifest of model files (name → size, SHA-256).
- `src/digest.rs` — SHA-256 of a file fed in chunks (through `sha2`) and its
  lower-case hex form.
- `src/fetch.rs` — the checks on a file taken from the GitHub release: a
  cached copy or a download is used only if its size and SHA-256 match the
  manifest.
- `src/resolve.rs` — the order in which each model file is looked for
  (Hugging Face, GitHub release, local path, newest backup directory) in the
  default, `--github-only` and `--local-only` modes.
- `src/paths.rs` — the temporary name of a download and where a file is
  looked for inside backup directories, over path components.
- `src/mode.rs` — the `--mode` rules; `src/wav.rs` — the WAV layout;
  `src/release.rs` — repository names and the release URL; `src/text.rs` —
  string comparison.

`app/main.rs` is the program around it: argument parsing, file and network
I/O, the speech model and WAV writing.
