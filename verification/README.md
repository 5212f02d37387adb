# anaden

The verified core of a game-automation toolkit, written in Verus.

- `src/` — the library. Its functions are proved by Verus against their
  contracts (a few small wrappers around std, marked `external_body`, are
  trusted):
  the pipeline loop's decisions (`driver`) and the command and next task of
  a recognised step (`pipeline_step`), the automation loop's decisions
  (`orchestrator`) with its scene tracker (`state_machine`) and strategy
  registry (`registry`), where diagnose reports go (`diagnostics`), routines of pipelines and their
  validation (`routine`, `routine_runner`), unrecognised-screen recovery
  (`recovery`), the strategy catalog and selections (`catalog`), the studio's
  bounded log buffer and run status (`log_buffer`, `log_status`), run history
  and its pane (`history`, `history_ui`), device connection state
  (`connection`), batch evaluation counts (`batch`), demonstration authoring (`authoring`, `authoring_panel`,
  `authoring_view`, `studio_task`), the child process lifecycle (`childproc`) and the command
  line (`cli`). Text helpers live in `text`, path candidates in `paths`.
- `app/` — the host around it: files, environment variables, `adb`, child
  processes and their output threads, serde forms of the library's types,
  the async loops (pipeline, routine, automation) that carry out the
  library's decisions, and diagnose report files.
- `tests/` — tests of the library on concrete values.
