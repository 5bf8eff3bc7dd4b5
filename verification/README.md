# omama_manager

The logic of a local LLM assistant built on ollama: chats and their
messages, retrieval of stored documents as context, the names and records
of local models, and the checks around installing the ollama service.

- `src/` is the verified library. Each public function states in its
  contract what it returns; the laws of the library (such as splitting a
  variant's tag giving back the model name and token size, or the grouping
  of local models naming every model once) are proof functions beside the
  functions they speak of.
- `chat::MessageFlow` makes the decisions of one chat exchange: given what
  the last call to the model or a database gave, it names the next call.
- `app/` makes those calls: the ollama service, the language-model client,
  the databases and the files beside the program.
- `tests/` runs the library on concrete values.
