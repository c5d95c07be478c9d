# rose_buddy

Buddy bots for a ROSE Online game server: companion characters that follow an
assigned player, fight, heal and buff with their skills, chat, and can be
driven by a language model through a REST API or a Model Context Protocol
(MCP) server.

The library in `src/` is written in Verus: each public function states its
behaviour in `requires` / `ensures` over mathematical models (`Seq`, `Map`,
`int`) and Verus proves the code against it.

## Layout

- `src/` – the verified library.
  - Game-side data: `status_effect`, `status_effect_database`, `components`,
    `resources`, `game_events`.
  - Bot behaviour: `bot_skills` (skill choice, scoring, cooldowns, the action
    step machine), `bot_idle` (chat and NPC visits, party invites),
    `buddy_bot_creation` (build types, job and level progression, equipment
    choice, the creation plan).
  - Language-model feedback: `event_types`, `event_queue`, `event_collector`,
    `context_builder`, `context_query`, `prompts`, `chat_handler`,
    `chat_routing`, `feedback`, `pending`, `tools`, `tool_executor`,
    `llm_client`, `llm_config`.
  - REST API: `api_models`, `api_channels`, `api_requests`, `api_routes`,
    `bot_registry`.
  - MCP server: `mcp_schemas`, `mcp_server`.
  - Identifiers and text: `ids` (UUID text form, through the `uuid` crate),
    `text` (string helpers).
- `app/` – plain Rust around the library: JSON encoding with serde, settings
  read from the environment, the state file, the HTTP and MCP request
  handlers, and the tool schemas.
- `tests/` – tests run against the compiled library.

Laws of the library are public proof functions named `lemma_*`, next to the
functions they relate.
