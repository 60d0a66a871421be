# gridforge

The verified core of Gridforge, a pattern-based chip-music workstation.

`src/` is a Verus library:

- `project` — channel types, notes, patterns and sequences of a project.
- `engine::sequencer` — the step sequencer: step length from tempo and
  sample rate, sample counting, ticks, steps, seeking, and the notes a
  channel plays at a step.
- `engine` — the playhead event that playback reports once per step.
- `engine::mixer` — channel layout, starting waveforms and the mute/solo rule.
- `plugin` — parameter identifiers, source categories, waveforms, the noise
  generator step and the index of registered source ids.
- `dto` — the payloads exchanged with the user interface.
- `commands` — input checks, the pattern grid edit and transport answers.

`app/` is the Tauri backend around it: windows and commands, the audio
device, the floating-point synthesis and mixing, and the project files.
