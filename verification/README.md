# ruos_mcp

The decision logic of `ruos-mcp`, a Model Context Protocol server (JSON-RPC 2.0
over stdio) that lets an AI client drive a desktop: screenshots, mouse and
keyboard through xdotool, shell commands, and system actions posted to the
desktop executor.

- `src/` is the verified library:
  - `json` — the JSON value the server reads and writes, its view, lookups;
    the text of flat JSON objects as serde_json writes them.
  - `encoding` — standard base64, and the proof that it decodes back.
  - `text` — white space, trimming, decimal text, lenient UTF-8 decoding.
  - `shell` — shell quoting (`shq`) and the merging of a command's output.
  - `catalog` — the tool catalog of `tools/list`.
  - `tools` — what each tool call does (`call_tool`) and the result it makes
    of the outcome (`finish_shell`, `capture`, `screenshot_result`).
  - `rpc` — the answer to each request (`handle`, `reply`, `reply_err`), and
    which input lines are messages (`message_text`).
  - `laws` — properties that span these functions, proved.
- `app/main.rs` is the program: it reads the messages, runs the commands,
  screenshots and pauses, and writes the answers.
- `tests/` runs the library on concrete values.
