# botframework

A Telegram bot framework with AI tool calling, written in Verus.

- `src/` is the verified library: tool parameter schemas (`property`,
  `schema`), MarkdownV2 escaping (`markdown`), command, greeting and
  callback decisions (`bot`), tool replies (`action`), inline keyboards
  (`keyboard`), the AI conversation and reply handling (`ai`), the reading
  of field types for the `ToolParameters` derive (`field_types`), the
  health endpoint (`health`) and start-up settings (`config`). Character
  helpers live in `text`.
- `app/` is the runtime around it: Telegram and AI-service requests, the
  dispatcher loop, the health server, loading secrets, and the traits an
  application implements.
- `tests/` exercises the library on concrete values.
