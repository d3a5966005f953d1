# open_os

The verified core of a small x86-64 teaching kernel.

- `src/vga_buffer.rs`: VGA text mode. `Color`, the packed `ColorCode`,
  the 80x25 `Buffer` and the `Writer`, whose `write_byte` and
  `write_string` are specified against a model of the screen (`Screen`,
  `after_write_byte`, `after_write_bytes`): line wrapping, newlines,
  scrolling and the replacement of unprintable bytes. Proof functions state
  the laws of the model (the cursor stays on the screen, a byte lands at the
  cursor, a full row wraps, a newline on the bottom row scrolls, writing two
  strings equals writing their concatenation, color bytes unpack).
- `src/gdt.rs`: the layout of the global descriptor table built with the
  `x86_64` crate (null entry, kernel code segment, TSS descriptor) and its
  selectors, the task state segment whose interrupt stack table holds the
  top of the double-fault stack, and that stack top.
- `src/interrupts.rs`: the raw VGA bytes the exception handlers show.
- `app/`: the kernel around it: VGA memory, loading the GDT, TSS and IDT,
  and the interrupt handlers (these need the nightly `x86-interrupt` ABI).
