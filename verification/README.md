# latex_workbench

The LaTeX engine logic of a desktop LaTeX workbench, verified with Verus.

- `src/engines.rs`: the supported engines (pdfLaTeX, XeLaTeX, LuaLaTeX,
  Tectonic), turning per-engine detections into the offered compilers, and
  the choice of the default (the first installed engine).
- `src/polling.rs`: what to do after starting or polling a child process,
  for an engine's `--version` probe and for a compile, including time-outs.
- `src/compile.rs`: choosing the engine for a compile request, the results
  of finished, timed-out and failed compiles, and the process log.
- `src/workdir.rs`: naming compile working directories and deciding which
  cache entries are old compile runs.
- `src/text.rs`: string comparison, prefixes and decimal numbers.

`app/` holds the Tauri commands and the process and file-system work: it
spawns, polls and kills processes, creates and removes directories, and hands
the outcomes to the library.
