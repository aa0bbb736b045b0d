# alfred

The logic of Alfred, a chat bot, as a library whose behaviour is stated in
contracts and proved with Verus, and the bot itself around it.

- `src/` — the verified library:
  - `text` — trimming, prefixes and suffixes, replacement, decimal numerals
    and field splitting on strings, stated over their characters;
  - `config` — the configuration and the database path;
  - `typst_doc` — code-block stripping of documents and the formatting of
    typesetter diagnostics;
  - `json_value` — JSON documents of the `json` crate and the readings the
    commands make of them;
  - `commands` — the answers of `cat`, `define`, `dog`, `fox`, `tuff`, `send`,
    `delfin` and the toggling of commands;
  - `db` — the statements sent to the database of switched-off commands, and
    proofs of what a toggle does to that table;
  - `state` — the remembered switched-off commands and `command_check`;
  - `random` — draws from `rand`.
- `app/` — the bot: chat-service commands, HTTP requests, the database
  connection, files, and typesetting.
- `tests/` — tests of the library on concrete values.
