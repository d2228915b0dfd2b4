# openai_api

A library of what stands between a conversation and the OpenAI APIs: how messages, tools and options
become requests, how streams of events become the turns of an assistant, and how a run is told to
its listener. Its code is verified with Verus; every contract is stated over mathematical models of
the types (`T` has the model `TV`, which `view` gives).

## Layout

- `src/` is the library.
  - `types`, `json`, `text`, `js`, `hash`, `assoc`, `order`, `decode`, `wire`: what everything else is
    made of.
  - `transform_messages`, `tool_call_ids`, `text_signature`, `constrained_sampling`,
    `simple_options`, `openai_prompt_cache`, `headers`, `header_map`: what both APIs share.
  - `openai_responses`, `openai_responses_shared`, `responses_input`, `responses_wire`,
    `responses_events`, `responses_stream`, `responses_run`: the Responses API.
  - `openai_completions`, `completions_*`, `cache_control`, `thinking_parameters`,
    `reasoning_details`: the chat-completions API.
  - `codex_transport`, `codex_stream`, `codex_connections`, `codex_retry`: Codex.
  - `openai_sse`, `requests`, `provider_error`, `run`: bodies, answers, errors and runs.
  - `transform_laws`, `id_laws`, `completions_laws`, `stream_laws`: laws that span several
    functions. Other laws stand beside the functions that they are about; their names begin with
    `law_`.
- `tests/` runs the library on concrete values.
- `app/` is the network and the clock around it.

Calls into other crates stand behind functions marked `external_body` and `assume_specification`
items; the doc comment of each says what is taken for granted of the call.
