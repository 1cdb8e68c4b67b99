# housebot

The decision logic of a Discord house bot and of its deployment companion, as a
Verus library: what is answered, what is stored and what is run is stated in
contracts and proved.

- `src/` is the library. Texts are sequences of characters, settings, jobs and
  pages are plain values, and every function says exactly what it returns.
  - Deployments: `deployment`, `containers`, `rollout`, `deploy_control`,
    `changelog`, `environment`.
  - Conversations: `routing`, `conversation`, `clock`, `prompt`, `media`,
    `history`, `profile`, `message_log`.
  - Commands: `commands`, `options`, `settings`, `user_config`, `replies`.
  - Answers: `answering`, `answer`, `formatting`, `redaction`, `pagination`,
    `components`.
  - Feature jobs: `develop`, `dispatch`, `catalog`.
  - `text` holds the operations on texts, and `bridge` every call into another
    crate, each with what is relied on of it.
- `tests/` runs the library.
- `app/` connects it to Discord, GitHub, Docker and the disk. The model, the
  stores and the job queue come in through the `Services` trait.

Functions named `law_*` state what holds across functions, such as that a started
job is settled exactly once, that a button leads to the page or job that it was
made for, or that logged messages are read back in the order in which they came.
Of secrets they state what is left of them: a known secret stands neither in a
redacted text, nor in the text and files of an answer, nor in the answer to a
script, whatever the other secrets are, as long as it can be told from what is put
in its place and from the notes and the frame around it. Every ordinary secret can,
of one line or of many: one with no character that those are set off by, that
neither begins nor ends with a line break, is no part of the words in them, and has
no tool or file named after it.
