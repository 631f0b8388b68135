# unix_ipc

Fourteen small programs that pass a server's state, or a shared table of letters, between
processes and threads through the Unix IPC mechanisms: memory-mapped files, System V message
queues, shared memory and semaphore sets, POSIX semaphores, pthread mutexes and read-write
locks, pipes, signals and Unix sockets.

- `src/` is the library, verified with Verus: the work done on the shared table (reversing it,
  flipping the case of its letters, counting its capitals) with the laws that hold of any order
  in which the threads take turns; how the return value of each system call is read; how the
  path of a socket is laid into its address; which bytes go into the pipe; and how errors and
  the server's state are shown.
- `app/` is the binary around it: the system calls themselves, the threads, the signal
  handlers and the serialisation. Run it as `unix_ipc <program> [arguments]`, where
  `<program>` is one of `mmap_client`, `mmap_server`, `msg_client`, `msg_server`, `pipe`,
  `pthread_mutex`, `pthread_rwlock`, `sem_init`, `semget`, `shm_client`, `shm_server`,
  `signal`, `socket_client`, `socket_server`.
