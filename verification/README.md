# heisenberg

A local AI agent for small machines: it picks a GGUF model and a KV-cache
quantization plan that fit a RAM budget, runs it under llama-server, and lets
the model act through shell commands, file edits, a browser helper, screen
captures and self-patches.

The decisions are a Verus-verified library (`src/`); the program around it
(`app/`) does the I/O.

- `src/the_lab/` — GGUF header reading, quantization and prompt-format
  detection, the TurboQuant memory planner, model ordering and selection,
  prompt templates, the llama-server command line and completion parameters.
- `src/mike/` — memory pressure, context scaling, the memory cap, zone
  accounting, the RSS monitor, and task-pattern keys.
- `src/saul/` — configuration, the command line, and the runtime policy.
- `src/jesse/` — script screening, output capping and run results.
- `src/heisenberg/` — reading tool requests from model replies and commands
  from the prompt, the bound on replies per turn, and the feedback sent back.
- `src/blue_sky/`, `src/the_rv/`, `src/hank/` — the patch stages, the browser
  helper's commands, and capture file names.
- `src/text.rs` — searching, trimming and decimal rendering over characters.

`tests/` exercises the library with the outside crates linked; `app/` holds
`main`, the terminal interface, processes, files, HTTP and PostgreSQL.
