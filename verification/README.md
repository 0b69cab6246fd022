# dev_cli

A command line tool for working with Eclipse Che / Dev Spaces workspaces:
open a workspace in VS Code, check the editor extensions it needs, open a
shell in a workspace container, and report on workspaces and their pods.

- `src/` is the verified library. It holds the decisions and computations of
  the tool, each with a contract proved by Verus: the `vscode-remote` URI
  (`open_code`), the extension check (`extensions`), the choice of a
  container (`pod`), the reports of the `workspaces` subcommand and the start
  of a workspace (`workspace`), the editor session of `code open` as a state
  machine (`code`), the parsing of `env` output (`helper`), the start/stop
  JSON patch and the reading of the user's answer (`devfile`), and the
  activity tick (`healthcheck`).
- `app/` is the program around it: argument parsing, the Kubernetes API,
  processes, the terminal, and the loops that perform the steps the library
  decides.
- `tests/` runs the library on concrete values.
