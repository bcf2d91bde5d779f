# memorata

The verified core of the Memorata recorder: record, pause and resume a session, stop
it, transcribe it locally or with AssemblyAI, and export the transcript.

- `src/` is the library, verified with Verus:
  - `coordinator` – the session state machine (idle, recording, paused, processing),
    key debouncing, and the effects the host must perform;
  - `session` – per-session options and the decisions behind the UI's session commands;
  - `language` – AssemblyAI language-code normalisation;
  - `assembly` – diarized transcript formatting, transcript request bodies, polling
    decisions and request planning;
  - `history` – export text, file names, retention periods, post-processing settings;
  - `power` – the wake-lock decisions;
  - `text` – trimming, decimal notation and string comparison.
- `app/` is the shell around it: the coordinator thread, HTTP and WAV I/O, the wake-lock
  system call and the command handlers, written against traits for the desktop
  application's services.
- `tests/` exercises the library.
