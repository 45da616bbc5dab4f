# memcordon_platform

The decisions behind running a command within bounds of memory and time, verified with
Verus: how a workload is launched, watched and retired on Linux and macOS, how attempts
follow one another under a supervision, and what is said to and believed of a provider of
sealed boundaries.

- `src/` is the library. Its functions take what native calls gave and say what to do next;
  each has a contract that is proved.
- `tests/` runs the library on concrete values.
- `app/` performs the native calls on Linux and macOS and hands the results to the library.
