# biglinux-microphone

AI noise reduction for PipeWire: a virtual microphone and an output filter
built from LADSPA and builtin filter-chain nodes, an echo canceller, and
user tunables written as PipeWire and WirePlumber drop-ins.

## Layout

- `src/` — the library, verified with Verus. It holds the settings model
  and its quality policy, the text of the three filter graphs and the
  drop-ins (with proofs that each drop-in reads back as written), the
  parsers of `pw-cli`, `pw-dump` and `pw-link` output, the reconcile
  planner and its step-by-step execution, the quantum preview's
  restoration, the echo route decision, the command line's words and
  switches, and the three-way merge of the settings file.
- `tests/` — tests of the library's public functions.
- `app/` — the `biglinux-microphone-cli` program around the library:
  reading and writing files, running `pw-dump`, `pw-cli`, `pw-metadata`,
  `pw-link` and `systemctl`, and the floating-point control values of
  the filter nodes.
  The configuration, home and runtime directories come from the `dirs`
  crate, as everywhere else in this project.

## Programs not built here

The project's other programs talk to PipeWire through its native Rust
bindings (`pipewire` and `libspa`), which are not available to this
build, so they are not part of `app/`:

- the automatic gain control service (its audio stream and level
  analysis); the decisions it makes with whole numbers — bounds, clipping,
  speech counting, step limits, the decision cycle, the nodes it finds and
  the `wpctl` volume argument — are in `src/agc.rs`;
- the filter-chain loader (`pwloader`); its argument resolution, CPU
  selection, plugin list and denoiser watch are in `src/pwloader.rs`;
- the graph probe; its argument handling is in `src/probe.rs`;
- the GTK window and its spectrum analyser.
