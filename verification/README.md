# zhihu_cli

A command-line client for the Zhihu Open Platform API (search, hot list,
Zhida questions, user data, knowledge bases, PDF parsing, PPT generation).

- `src/` is the library, written in Verus and verified: it validates the
  command-line input, assembles each request (path, query parameters, JSON
  body, upload form), reads the responses and the answer stream, decides
  when a polled task is done, resolves the access secret, and renders errors.
  Its JSON model (`json.rs`) is what request bodies are built in and
  responses are read from.
- `app/` is the `zhihu` program around it: argument parsing with clap, the
  configuration file, HTTP with reqwest, JSON text with serde_json, and the
  terminal.
- `tests/` runs the library on concrete inputs.
