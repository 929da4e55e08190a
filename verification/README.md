# pantry

Pantry manages local and remote LLMs for a desktop user and serves them to
other programs over an HTTP API. This crate holds its rules as a verified
library, and a small service around it.

- `src/` — the library, written in Verus. Every function states what it
  returns in its contract, and Verus proves it: how the API authorises a
  caller, how it picks an LLM from a filter and preferences, how caller
  parameters are merged into an LLM's own, how running inferences are
  tracked and interrupted, how the running LLMs and the user's settings are
  kept, how requests, downloads, deep links and inference tokens are
  handled. The public proof functions state the laws that hold across
  calls (for instance, that whatever LLM is picked passes the caller's
  filter, or that an interrupt right after an inference started cancels
  that inference's token). API keys are handed to a user once, in clear;
  the user table keeps only their hash, and the API hashes the key a caller
  gives before comparing.
- `tests/` — tests on concrete values, run against the compiled library.
- `app/` — the service: the HTTP routes, the SQLite database, model
  downloads and the settings file. It asks the library what to do and does
  the input and output. Running inference needs a local model engine that
  this build does not link, so the session and prompt routes answer with an
  error; the desktop window, which accepts and rejects requests, is not part
  of it either.
