# VesperaOS platform layer

The platform layer of the standard library for VesperaOS: how files, paths,
the environment, processes, threads, standard streams, time and OS errors
map onto the kernel's system calls.

`src/` holds the decisions of that layer as verified functions: every
system call's result is handed to a function that states, in its contract,
what the layer makes of it (an `io::Error`, a count, a file attribute, a
cached exit status, and so on). Among the laws proved there:

- `time`: `Timespec` arithmetic is exact and invertible where it does not
  overflow, and its order is the order of time;
- `paths`: `split_paths` and `join_paths` undo each other;
- `keys`, `command_env`: the sorted environment map and a command's
  captured environment behave as maps, and what a spawned program is handed
  parses back into the captured pairs;
- `fs`: open flags decode back into the options they came from, and
  `set_readonly` round-trips.

`app/` is the thin unverified part: the system-call declarations, the calls
themselves, and the loops that hand their results to the library.
