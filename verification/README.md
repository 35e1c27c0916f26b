# cgwiki

Formats the game's text strings (SeStrings) as wiki markup: styles become
wiki quotes, colours become spans or templates, conditionals on gender,
city, race or grand company become `{{alternatives}}` templates or tags,
and fixed fragments are tidied at the end.

## Layout

- `src/` — the verified library.
  - `sestring.rs`, `value.rs`: parsed strings, evaluated values, errors.
  - `semantics.rs`: the meaning of every step as spec functions from a
    state to a new state and an outcome.
  - `evaluate.rs`, `from_expressions.rs`, `convert_value.rs`: evaluating
    macro arguments.
  - `handle_macro.rs`, `formatter.rs`: rendering macros and whole strings.
  - `writer.rs`, `write.rs`, `color_category.rs`: the wiki writer.
  - `lookup.rs`, `sheet_detail.rs`: the table of sheet lookups the
    formatter consults, and the naming of sheet columns.
  - `clock.rs`: calendar readings through the `time` crate.
  - `string_process.rs`: tidying through `aho-corasick`.
  - `laws.rs`, `answers.rs`: properties proved across functions.
- `app/` — reading the game data with `ironworks`: converting parsed
  strings, answering the lookups the formatter notes, and running it until
  none is missing.
- `tests/` — tests of the library.
