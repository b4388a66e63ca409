# milkv

Verified logic of a bare-metal software stack for the Milk-V Duo board (boot loader,
kernel, host tools), written in Verus. The register accesses, interrupt entry and drawing
happen on the board; what they decide and compute lives here, with contracts that Verus
proves.

## Layout

- `src/` — the verified library:
  - `ansi`, `ansi_graphics`, `bl_ansi`: streaming parsers of ANSI escape sequences and
    their graphic renditions.
  - `vga`, `vga_signal`: the text console on the frame buffer and the timing of the VGA
    signal.
  - `cmd`, `line_editor`, `monitor`: the boot loader's prompt: line editing, command
    tables and argument parsing, memory dumps, CSR reports and `printf` pieces.
  - `fip`, `fip_laws`: building and checking boot images, and what the two promise of
    each other.
  - `mem`, `paging`, `table_dump`: Sv39 page-table entries, address translation, the
    kernel's early page tables and their listing.
  - `tasks`, `trap`, `plic`, `timer`, `uart`, `uart_sys`: task switching, trap dispatch,
    the interrupt controller, timers, the serial console and its queues.
  - `ddr`, `regs`, `dsi`: decisions of the DDR bring-up, register field arithmetic and
    the display scaler's register map.
- `tests/` — tests of the library on concrete values.
- `app/` — the host tools (`fip`, `make`, `dump`, `deploy`, `ansi-test`): file and
  serial I/O around the library.
