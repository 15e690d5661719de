# imoocs

Verified core of `imoocs`, a command-line client for INIAD MOOCs that drives a
headless browser (agent-browser) for the operations that need one.

- `src/` is the library, checked by Verus: the command batches sent to agent-browser
  and the judgement of their outcomes (`batch`, `pages`, `submit`, `auth_flow`,
  `process`, `session`, `snapshot`, `js`, `json`, `slide_url`), and the decisions of the
  commands: submission gates, push order and reporting (`confirm`, `assignment`,
  `push_flow`), `reset` planning and tallying (`reset`), `setup` steps (`setup`),
  the `doctor` report (`doctor`), Drive targets (`drive_target`), skills
  (`skills`), authentication texts (`auth_cmd`), global options (`cli_opts`),
  lesson embeds (`embeds`) and the binary search path (`install`).
- `tests/` runs the library on concrete values.
- `app/` is a thin executable around the library: argument parsing for the
  `version` and `completion` commands, logging, the agent-browser process runner and
  the browser operations built from the library's batches. The commands that need the
  MOOCs HTTP client, the configuration files and the keyring are not wired into it.
