# sel4_platform

The verified core of an ArceOS platform layer that runs as the root task on
seL4. Everything that decides or computes lives in `src/` and is proved with
Verus; the kernel invocations, per-CPU statics and loops live in `app/`.

- `src/kit`: index, frame and untyped allocators, the address translation
  tables of the root task (`MemCap`), per-CPU IRQ bookkeeping (`IrqCap`) and
  capability sets.
- `src/platform`: the platform's capability sets and task registry, IRQ
  dispatch decisions, and the classification of root-task messages.
- `src/runtime`: secondary CPU boot order and the runtime's message handling.
- `src/hal`: the inert timer, IRQ and memory-region entry points.
