# rkos_builder

A builder for a Linux-from-scratch style system, split in two:

- `src/` is the verified library. It decides what the builder does:
  - `config`: the configuration records and the command line;
  - `plan`: which tasks each build option runs and in which order, with
    proofs that every plan is well ordered and that a full build does the
    work of the step-by-step options in the same order;
  - `paths`, `scripts`: path joining and the shell commands tasks run;
  - `steps`: a task's steps run in order until one fails;
  - `install`: the state machine that installs one package;
  - `download`: the state machine that fetches package archives and patches,
    retrying each up to five times;
  - `build_temp_toolchain`, `build_lfs_sys`, `build_rust_packages`,
    `config_sys`, `prepare_host_sys`, `utils`: the tasks and their steps;
  - `disk`: partition lines from `blkid` and the UUIDs in them;
  - `trusted`: the few calls into std and `regex` whose results are taken
    on trust.
- `app/` is the program: it parses the command line, loads the JSON
  configuration, asks for partitions, and performs what the library's plans
  and state machines ask for (running scripts, searching and copying files,
  downloading), with the dagrs engine ordering the tasks.
