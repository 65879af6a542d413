# sldl-remote

Remote control of [sldl](https://github.com/fiso64/sldl) downloads on an
SSH-reachable host: jobs are started, polled, stopped and restarted over
`ssh`, the remote music library is browsed, and the local configuration is
kept in an AES-256-GCM sealed file.

## Layout

- `src/` — the library, verified with Verus. Every decision the app takes
  lives here with a contract:
  - `text` — string specifications (lines, words, trimming, numbers) and
    their executable counterparts;
  - `config`, `config_manager` — settings, defaults, the per-job sldl.conf,
    SSH targets and options, quality presets, the config cache;
  - `job`, `registry`, `job_manager` — job records and the in-memory job
    registry, modelled as a map from id to job;
  - `progress`, `services`, `ordering` — log parsing, ban detection,
    output directories, the sldl command line, job ordering;
  - `commands`, `polling`, `discovery`, `library`, `remote`, `setup` — what
    each frontend command decides, the remote command texts and what their
    answers mean;
  - `crypto` — sealing and opening the config file;
  - `laws` — properties that relate several operations.
- `app/` — the desktop side: file and process I/O, the async command
  handlers, serde copies of the configuration and the types that carry
  floating-point figures.
- `tests/` — tests of the library on concrete values.
