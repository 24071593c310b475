# roblox_studio_bridge

A bridge that lets an MCP client drive Roblox Studio: an MCP "Streamable HTTP"
endpoint, a long-poll server for the Studio plugin, and a Cloudflare tunnel that
makes the endpoint public, all under a small egui window.

- `src/` is the verified library (Verus):
  - `text` — character-level search, ordering, decimal text and port parsing;
  - `tunnel` — the tunnel URL scanner and the `cloudflared` command lines;
  - `bridge` — the command queue between tool calls and the plugin;
  - `json`, `mcp`, `tools` — the JSON-RPC router, tool dispatch and catalogue;
  - `config`, `state`, `settings` — settings, runtime configuration, the shared
    log/status and the settings form.
- `app/` is the program around it: the window, the HTTP servers, the tunnel
  process and the files on disk.
- `tests/` exercises the library.
