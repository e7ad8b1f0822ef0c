# libllm_tui

The decision-making core of a terminal chat client for local language models,
written in Verus and proved against its contracts.

- `src/` is the verified library: key and mouse routing, the pickers and field
  editors (characters, personas, worldbooks, presets, system prompts, config and
  theme), streaming and context-window decisions, branching, autosave scheduling,
  status-line timing, file references, search, and the text handling beneath them.
  Laws that span several functions are public proof functions named `law_*`.
  Calls into outside code (the clock, randomness, `regex`, `time`, Unicode case and
  class tables) sit behind small trusted wrappers whose doc comments say what is
  claimed of them.
- `tests/` runs the library on concrete values.
- `app/` is the unverified glue: conversions to and from `crossterm` and `ratatui`,
  directory listings and file writes, the home directory, a few span builders for
  drawing, and the numeric conversions around floating-point settings. It holds no
  event loop: the application around it (storage, sessions, the model client) is not
  part of this crate.

Times inside the library are plain numbers (milliseconds on the caller's monotonic
clock) or opaque `std::time::Instant` readings; limits such as the 150 ms refusal
highlight and the 150 ms search pause are compared by verified functions.
