# sidecar

The decision logic of a coding sidecar, verified with Verus, and the async code
around it.

`src/` is the verified library.

- `outline`: the outline of a file, and the search for a symbol in it.
- `important`, `plan`: the symbols a model calls important, and the plan made of
  them.
- `manager`: what the symbol manager asks of its tools, and what it makes of
  their replies.
- `run`, `resolution`: resolving the symbols of a plan to snippets, one question
  after the other, and what a whole run comes to.
- `implementation`: going to the implementations of a symbol.
- `prompt`, `chat`: the conversation that is put before a model in a session
  chat, and the reply streamed back.
- `laws`: what holds across all of these.
- the other modules: the types that they share.

`app/` holds what talks to the outside: the brokers and the language models
behind traits, the channels and the tasks. It performs the actions that the
library asks for and hands back what came of them.
