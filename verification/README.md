# Nexus

A configurable harness for AI agents: models, tools, permissions, context,
skills, hooks, plugins, workspaces and an operator console as composable
parts.

## Layout

- `src/` is the library, written in Verus. Every decision the harness makes
  stands there with its contract: permission policies, plugin manifests,
  skills and hooks, context budgets, tool input rules and path containment,
  the bounded tool loop, Git worktree listings, container arguments and
  lifecycle, MCP request bookkeeping, and the console's state machine.
- `app/` is the `nexus` command: the terminal, the file system, processes,
  model providers, the MCP stdio transport and the async plumbing. It hands
  plain values to the library and acts on what comes back.
- `tests/` exercises the library on concrete values.
