# localtrans

The decision logic of LocalTrans, a local-first realtime speech translation
desktop tool (speech recognition, machine translation, speech output), as a
library verified with Verus, and the command line program around it.

## Layout

- `src/` — the verified library. Every public function states its result in
  `ensures` over spec functions on `Seq`, `Set` and integers.
  - `text`, `order` — character-level helpers (trimming, ASCII lowercase,
    splitting, joining, decimal numerals, code-point order) and their lemmas.
  - `governance`, `profiles`, `adapters`, `system` — engine selection from
    settings and workflow policy, workflow profiles, the adapter inventory,
    session preflight, runtime status, MT runtime and log status.
  - `session`, `pipeline`, `transcription` — session status, the file-based
    session bus records, pipeline state transitions, history, streaming ASR
    state machine.
  - `worker` — the background session worker's decisions: control commands,
    cutting captured audio into utterances, the records it writes.
  - `audio` — ring buffer, overlapping chunker and the VAD frame gate.
  - `asr`, `asr_models`, `models` — model catalogue, ASR model directory
    choice, download pages.
  - `loci_runtime`, `loci_text`, `loci_translator`, `translation_service` —
    Loci model resolution and configuration, prompt building and output
    cleaning, the circuit breaker, translation routing.
  - `devices`, `powershell`, `system_tts`, `voice`, `user_path`, `wer`, `misc` —
    audio device selection, PowerShell probe and speech scripts, TTS doctor
    reports, `PATH` editing and shell shims, word error distance, small
    commands.
- `tests/` — tests of the library on concrete values.
- `app/` — the `localtrans` command line program: argument parsing, files of
  the session bus and settings, directory scans, external processes, and the
  floating-point figures (confidences, latency averages, size formatting).

## Laws

The library proves, among others: the VAD gate enters and leaves speech after
exactly the configured runs of frames; pausing and resuming round-trips; the
history never exceeds its capacity; speech that ends is finalized; an
utterance ends exactly after 360 ms of silence; three Loci
failures in a row open the circuit for five minutes; adding a directory to
`PATH` and removing it again restores the entries; the id a device is listed
under selects that device; engine normalization is idempotent.
