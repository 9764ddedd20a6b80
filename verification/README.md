# mork_user_lib

The user-space library of the mork microkernel: how a program asks the
kernel for objects, mappings and threads, and how it starts up.

- `src/` is verified with Verus. It holds the message format
  (`message_info`), the kernel's numbers (`constants`), the registers of
  every trap and the reading of every reply (`hal`, `mork_cspace`,
  `mork_task`, `mork_mm`, `mork_ipc`, `mork_alloc`), the register transfer
  through the IPC buffer and which buffer a thread uses (`mork_ipc_buffer`), and the procedures that
  take several kernel round trips as state machines: mapping a frame with
  its page tables (`mork_mm::MapFrameAnyway`), creating a thread and giving back
  what it owns (`mork_thread::CreateThread`, `mork_thread::FreeThread`), and start-up (`boot`). Each machine names the kernel
  request of its current step (`request`).
- `app/` carries out what `src/` decides: the trap instruction, memory
  allocation, the per-thread IPC buffer, the heap allocator, the panic
  handler and the program entry.

The message layout (`message_info`), the invocation and response labels,
the trap codes, the capability-slot and object-kind numbers (`constants`),
the register indices (`user_context`) and the IPC-buffer layout
(`mork_ipc_buffer`, `app/ipc_buffer.rs`) are this library's own definitions
of the kernel interface; they must agree with the kernel the library runs
on. Reply labels that name no outcome the library knows read as
`ResponseLabel::UnknownError`.
