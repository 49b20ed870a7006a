# landry

The core of Landry, a desktop playground for running GGUF language models
locally: browse the Hugging Face hub, download a model file with progress and
cancellation, generate a streamed response, and keep a history of runs.

- `src/` is the library, verified with Verus: the catalog and search plan,
  hub addresses and file lists, the download steps and progress throttling,
  the job table, the generation session, the loaded-model cache and the
  streaming chunker, the store's row mapping and the settings rules.
  Long-running work is written as state machines: each method takes the
  outcome of a step and answers with the next actions to perform.
- `app/` is the Tauri application around it: HTTP, SQLite, files, the model
  runtime and the event loop that performs the library's actions.
- `tests/` runs the library on concrete values.
