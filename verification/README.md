# sdkwork_audio

The task model and the decisions of four audio generation services (speech
synthesis, transcription, translation of speech, sound effects), verified with
Verus.

- `src/` is the verified library. `task`, `artifact`, `voice` hold the records,
  requests and vocabularies; `clock`, `text`, `digest`, `formats`, `subtitles`
  the value-level helpers; `document` the JSON documents written with tasks
  and artifacts and the reading of stored results; `lifecycle` and `pipeline`
  the decisions every service shares (creating a task under an idempotency
  key, cancelling, the updates of a run, the pages of a listing); `speech`, `transcription`, `translation`, `sound_effect`
  each service's own request, digest, creation, run and read-back decisions;
  `catalog` the fixed presets, categories and languages.
- A run of a task is a state machine: each `step` takes what the stores, the
  engine or the drive answered and says what to ask for next.
- `app/` runs those machines: the async service traits, the repository ports,
  the calls to the AI engine and the artifact drive, the clock, and the
  transcription and translation result JSON, which holds the engine's
  floating-point confidences.
- `tests/` exercises the library on concrete values.
