# unsplash-mcp

An MCP server for Unsplash image discovery, driving a headless Chrome that
clears Unsplash's bot check and reads its internal `/napi/*` JSON endpoints.

- `src/` is the verified library (Verus): query and topic-slug encoding,
  the endpoint paths, the JSON shapes read and written, the decisions of the
  browser session (bot-check verdicts, headless-then-headed fallback, the
  in-page fetch script and its reply, profile directories, time budgets),
  and the tool arguments' defaults and checks.
- `app/` is the server around it: the MCP protocol (`rmcp`), Chrome
  (`chromiumoxide`), the async runtime, environment and process I/O, and JSON
  parsing and printing.
- `tests/` runs the library on concrete values.
