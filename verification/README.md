# zcode_glm

The GLM (Zhipu) setup of the zcode coding-agent CLI, with its decisions
verified by Verus.

- `src/` — the verified library:
  - `home_dir`: which configuration directory to use (`ZCODE_HOME`,
    `CODEX_HOME`, `~/.zcode` or an existing `~/.codex`) and the errors
    when a variable names a bad path;
  - `auth`: what a GLM login writes into the stored credentials and what a
    later lookup gives back;
  - `onboarding`: the first-run API-key entry step as a state machine over
    key events and pastes, and whether the step is needed;
  - `catalog`: the static GLM model catalog;
  - `analytics`: the analytics client settings (opt-in, trimmed base URL);
  - `text`: trimming helpers stated over characters.
- `app/` — the file system, the environment, the auth store file, crossterm
  key events and ratatui drawing around the library.
- `tests/` — tests of the library.
