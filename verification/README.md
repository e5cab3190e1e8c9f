# curium

Building blocks of a small Linux container runtime, written in Verus.

- `src/` is the verified library: a fixed-capacity byte writer
  (`fixed_buf_writer`), the `uid_map` line format (`uid_map`), builders for
  the arguments of `clone3(2)`, `close_range(2)` and `mount(2)` (`clone3`,
  `close_range`, `mount`), and what spawning a container sets up
  (`container`). The `libc` constants that the builders use are reached
  through the functions of `sys`, whose contracts state the values that
  `libc` declares.
- `app/` is the program around it: the system calls themselves (`clone3`,
  `close_range`, `mount`, `pivot_root`, `execve`), the file write of the
  uid map line, and the spawning of a container.
