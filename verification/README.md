# jetson_flash

A headless flashing pipeline for NVIDIA Jetson Orin (Tegra234) devkits,
written in Verus. The library (`src/`) holds what the pipeline decides,
each piece with a verified contract:

- `config`: the configuration model, its defaults, the JetPack presets,
  profile selection,
  config-file resolution and the NetworkManager DNS list.
- `paths`: the workspace layout: downloads per L4T version, staging and
  logs per profile and version.
- `error`: the typed errors and their messages.
- `logging`: message levels, log and console lines, command labels,
  log file names, and the tail of a captured log.
- `plan`: stage plans (probes and guarded actions) and `PlanRun`, the
  machine that tells the host what to do next.
- `pipeline`: the stages and `PipelineRun`, which runs them in order and
  stops at the first error.
- `stages`: the plan of each stage (deps, fetch, stage, preconfig, check,
  flash), which plan each step runs, the NetworkManager keyfiles, USB
  recovery detection.
- `text`: string helpers with specifications over `Seq<char>`.

`app/` is the command line and the host side: it reads the TOML config
and environment with figment, enumerates USB devices with rusb, runs
commands under a spinner, and answers the requests of `PlanRun`.
