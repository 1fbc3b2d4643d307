# grok_web_api

A self-hosted, OpenAI-compatible gateway to the Grok web API, with its logic written in
Verus and proved against its contracts.

## Layout

- `src/` — the verified library.
  - `auth`, `challenge`, `client`, `endpoints`, `error`, `stream`, `types`: the Grok
    client side — session cookies, the anti-bot token, request headers and what each HTTP
    status means, the REST calls, and the NDJSON reply stream.
  - `openai`, `tools`, `completion`: the OpenAI surface — tool aliases, the tool-call
    protocol written into the prompt and parsed back out of the reply, request planning,
    streaming and the final answer.
  - `api_error`, `access`, `models`, `routes`, `config`, `keys`: the server side —
    problem answers, the API key gate, the model list, route decisions, start-up and the
    `update-keys` command.
  - `json`, `text`, `clock`: reading JSON through `serde_json`, string helpers, the
    clock.
- `tests/` — tests of the library.
- `app/` — the `grok-server` program: configuration loading, the HTTP client towards
  grok.com, and the axum server, all calling into the library.

## Laws

Besides each function's contract, the library proves properties that span functions,
as `law_*` proof functions: the anti-bot mask undoes itself and tokens are 70 bytes;
streamed text never carries an opening tool tag; text without tags holds no calls;
aliases map back to the real tool names; a rendered history is its messages joined by
blank lines; reply-stream lines are only ever cut from the front; every client error is
answered with an error status; every requested model maps to a known upstream mode; and
`update-keys` writes every update it is given.
