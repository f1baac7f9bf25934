# blog_os

The testable core of a small x86_64 kernel, verified with Verus.

- `src/vga_buffer.rs`: colours, attribute bytes, screen cells and the text
  writer that draws on the bottom row of the 80x25 VGA text screen and scrolls.
  Its contracts are stated over `WriterState`, an abstract model of the cursor,
  the colours and the screen.
- `src/vga_laws.rs`: properties of the writer across several writes.
- `src/qemu.rs`: the QEMU debug-exit codes and the test runner.
- `src/paging.rs`: virtual-address arithmetic computed by the `x86_64` crate.
- `src/interrupts.rs`: the interrupt descriptor table.
- `app/`: the kernel itself: entry points, video memory, serial port, I/O
  ports, page tables and panic handling.
