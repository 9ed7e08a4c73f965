# atuin_ai

The core of the Atuin AI inline assistant, verified with Verus.

`src/` is the verified library:

- `state` – the conversation state machine (`AppState`) and its view
  `AppStateModel`; every lifecycle method is a transition of the model.
- `queries` – the suggested command, its danger level, the tool activity
  since the last user message and the footer hints.
- `messages` – the chat API messages made from the conversation (consecutive
  tool calls grouped) and their JSON text.
- `turns` – the grouping of the conversation into user and agent turns.
- `stream` – the chat request body, the decoding of server-sent events and
  their effect on the state.
- `session` – what a key press does in each mode, and what the shell is told.
- `input_box` – the decisions of the bordered input box.
- `hub` – hub endpoint addresses, endpoint and token selection.
- `json`, `text` – the `serde_json` calls the library relies on, and text
  helpers (Unicode whitespace, trimming).

`app/` is the terminal front end: HTTP, the event loop, rendering with
`eye_declare`, and the text area.
