# snowcone

One interface to forty-four package managers, verified with Verus.

For each manager the library knows how to find it, what it can do, which
commands carry out an operation, and how to read what those commands print.
It runs nothing itself: a change is a list of commands (`Plan`), and an
operation that has to look at replies before it goes on is a function from the
replies so far to the next step (`Step`): act, done, or failed.

## Layout

- `src/text.rs`, `src/rows.rs`, `src/order.rs`, `src/version.rs`,
  `src/size.rs`, `src/pattern.rs`, `src/path.rs`: text, tables, sorting,
  versions, sizes, escaping and paths, each with its mathematical model.
- `src/data.rs`: JSON and TOML as trees. The only calls into other crates
  (`serde_json`, `toml`) are here.
- `src/request.rs`, `src/package.rs`, `src/profile.rs`, `src/error.rs`: what is
  asked for, what is found, what a manager says of itself, and what goes wrong.
- `src/command.rs`, `src/session.rs`, `src/detect.rs`: commands and plans,
  steps and replies, finding programs.
- `src/backends/`: one module for each manager.
- `app/`: an asynchronous front for the library, which starts processes and
  reads files.
- `tests/`: one file for each manager, and tests of what holds across them.

## What is proved

The contract of every function says what it returns, over models made of
sequences of characters: the exact commands of a plan, the exact next step of
an operation, the exact packages that a parser reads. Beyond that, every
changing operation states whether its commands ask for elevation, that a dry run is
refused or asks the manager for a preview alone, that a pinned version is refused
where the manager has no pins, and that reading never changes anything.
Properties that join several functions stand as public proof functions, such as
`session::commands_run_in_order`, `text::splitting_is_lossless`,
`order::sorting_orders` and `request::pins_are_refused_exactly`.

What is believed without proof is marked `external_body`: reading and opening
JSON and TOML values in `src/data.rs`, and two functions of the standard library
on characters in `src/text.rs`.
