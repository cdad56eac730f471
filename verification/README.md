# axe

`axe` drives Axelar cross-chain development from the command line and, as an
MCP server, from an agent. This crate is its core, written and proved in Verus.

- `src/` is the library. `runs` tracks background load tests and their reports,
  `policy` holds the operator's spend caps, `server` and `catalogue` are the
  tools that a client may call, `mcp` and `context` what a server starts with,
  `cli` which flow a command line asks for, `express` and `load_test` what a
  transfer and a load test run with, `presentation`, `benchmark` and `ui` what
  people are shown. `text` and `order` are the string functions that the rest is
  stated over; `json`, `evm`, `table`, `time` and `protocol` are the borders to
  `serde_json`, `alloy`, `comfy_table`, `chrono` and `rmcp`, and `path` to the
  paths of the platform.
- `tests/` runs the library on concrete values.
- `app/` is the program around it: arguments, files, the terminal, the wire, and
  the seam to the chain clients.

Properties that relate several functions stand in `src/` as proof functions
whose names start with `law_`.
