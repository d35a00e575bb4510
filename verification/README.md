# prompt_harness

Clients for hosted LLM and OCR services: Anthropic Messages, OpenAI Responses,
Google Gemini and Mistral OCR.

- `src/` is the library, verified with Verus. It holds what the clients decide:
  the JSON bodies they send (`build_request`), how they read a decoded reply
  (`parse_response`, `MistralOcrProvider::response_from_api`), the data URL of an
  OCR document (`create_document`), status checks and error texts
  (`client`, `error`), and the string operations these need (`text`).
- `app/` is the program around it: reading API keys from the environment,
  sending requests with `ureq`, and encoding and decoding JSON with `serde`
  (each provider gets `new` and `complete`/`process` through a trait there).
- `tests/` exercises the library on concrete values.
