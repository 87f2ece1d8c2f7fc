# process_files_in_ftp

A command-line tool that downloads the files of an FTP directory with a pool
of worker connections, records each run in PostgreSQL, and a terminal
dashboard that shows the recorded runs.

- `src/` is the verified library (Verus): settings rules (`config`), worker
  pool (`thread_pool`), run planning and progress (`processing`), run and
  file bookkeeping (`db`), dashboard state and text (`layout`), date layouts
  (`datetime`) and character-level helpers (`text`).
- `app/` is the program around it: command line, prompts, settings file,
  FTP and database connections, threads, and terminal drawing.
- `tests/` exercise the library on concrete values.
