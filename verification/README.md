# Usine

Usine is a board for coding agents: a card is a task, and it moves from a
description through a plan, an implementation, a self-review and a pull request to
a merge. Other people's pull requests have a board of their own.

This crate is the part of Usine that decides: what the board shows, what a button
does, what a gesture sends, what survives a change of state. All of it is written
in Verus and verified against its contracts.

## Layout

- `src/` — the verified library.
  - `model`, `command`, `copies` — the records, the commands and the events.
  - `state`, `actions` — the state of the window, the reducer that events go
    through, and what each action sends.
  - `board`, `card`, `cardmenu`, `sidebar`, `search`, `newcard`, `adoptdialog`,
    `resize`, `toast`, `usagebar`, `settings` — the parts of the window.
  - `detail`, `edit`, `plan`, `conclusion`, `fixes`, `pr_create`, `pr_review`,
    `chat`, `transcript` — the panel of a card, section by section.
  - `reviewboard`, `reviewpanel`, `reviewdraft`, `diffdialog`, `diffview` — pull
    requests under review, and the diff they are validated in.
  - `confirm` — dialogs that stand before a command.
  - `drafts`, `textfield` — text that is typed and not sent yet.
  - `markdown`, `text`, `lists` — prose, characters, sequences.
  - `cli`, `demo`, `stress` — the command line, the sample board, the typing probe.
  - `outside` — the calls into other crates, each with the contract it is trusted
    for.
- `tests/` — the library, run on values.
- `app/` — the window (Dioxus), the command line, and the bridge to the core crate
  that runs agents, git and GitHub. Indented with tabs.

## Contracts

A record has a view in mathematical terms, and a function's contract speaks of
views: the sections of a panel are a sequence, the state after an event is the
state before it with named parts replaced, a text is a sequence of characters.
What relates several functions stands as a public proof function beside them, its
statement in its first line.

What only the core crate can tell of a card or a review (its column, its status,
whether it waits on the user) comes in as plain fields, `CardFacts` and
`ReviewFacts`.
