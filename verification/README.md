# voxforge

The decision logic of a voice-to-text desktop tool, verified with Verus.

- `src/` — the library. `pipeline` and `streaming` are the recording pipeline
  as state machines that return the actions to perform; `settings`, `groq`,
  `deepgram`, `whisper`, `focus`, `audio` and `paste` hold the rules of each
  part; `text` holds trimming and matching over characters.
- `app/` — the desktop program around it: audio capture, the live
  transcription socket, HTTP calls, the offline model, clipboard, focus and
  window handling, and the loop that performs the library's actions.
- `tests/` — tests of the library on concrete values.
