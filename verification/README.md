# nx

A verified core for a runtime library of the NX system (Horizon OS).

`src/` is the library, verified with Verus. It holds the computations of the
runtime; kernel calls and raw memory accesses are made by the caller, who hands
their results to these functions:

- `handle`, `result`, `svc`, `svc::info`: kernel handles, the packing of error
  codes, the values of supervisor calls, and the process regions computed from
  the kernel's information queries.
- `mutex`: the user-space mutex protocol as a state machine, with a model of
  concurrent threads (`mutex::model`) in which the protocol is proved to keep
  the mutex mutually exclusive.
- `memory`: heap sizing and the process-wide critical section.
- `thread`, `thread::spawn`: the thread-local region, thread creation as a
  state machine, waiting for and detaching threads.
- `virtmem`: the record of virtual memory reservations and their placement.
- `rtld`: reading a module's dynamic table and computing its relocations.
- `random`: ChaCha20 generators seeded per thread.
- `services`, `services::message`, `services::types`: the service manager
  session, the layout of its requests and responses, and IPC header encodings.
- `nnfs`: values of the system's file-system functions.

`app/` is the runtime around it: the supervisor-call stubs, thread-local
access, the mutex and thread drivers, the heap allocator and process start-up.
