# ast_grep_gui

The core of an ast-grep desktop front end, written in Verus: searching files
by AST pattern, plain text, regex or token sequence; rewriting by template;
suggesting patterns for a snippet; decoding text files; inferring receiver
types for `$RECV`; batch runs and their reports (JSON, text, Markdown, HTML,
Excel cell layouts); the UI texts in Japanese and English.

- `src/` is the verified library. Calls into ast-grep, `regex`, encoding_rs,
  chardetng and sys-locale go through small trusted wrappers whose contracts
  name what the outside function returns; everything around them is proved
  against those contracts.
- `tests/` runs the library with the real outside crates linked.
- `app/` is the command-line batch runner: argument parsing, the directory
  walk, reading and writing files, serde and the xlsx writer.
