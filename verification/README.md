# wosim

The verified core of the WoSim engine, written in Verus.

- `src/` is the library. Every function in it has a contract, and Verus
  proves the code against it:
  - `handle`: combinators for event-handling flow
  - `task_queue`: slot bookkeeping for the 64-task blocks of the scheduler,
    including the order of a poll round
  - `actor`: the mailbox loop's decisions
  - `net`: framing buffers, the port table, and the login reply exchanged
    when a connection is established (encoded with bincode)
  - `db`: the paged file layer and its header encoding, in the byte order
    fixed for each database
  - `vulkan`: version packing, device ranking, the descriptor set layouts
    of the culling, scene and depth-pyramid passes, and the pool sizes that
    follow from them
  - `render`: frame scheduling, the depth-pyramid layout, and the pool
    sizes of a frame and of the render context
  - `client`, `gui_input`: input state, the answer to each event-loop
    message, the debug log, and window-to-GUI input translation
- `app/` is the ordinary Rust around it: executors, `std::io` adapters,
  bincode encoding, and the conversions from `ash` and `log` types.
- `tests/` runs the library on concrete values.
