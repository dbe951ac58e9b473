# rustboy

The core of a Game Boy emulator, verified with Verus.

- `src/registers.rs`: the register file, register pairs and flags.
- `src/cartridge.rs`: the cartridge slot (ROM image and external RAM).
- `src/mmu.rs`: the memory map, with the boot ROM overlay and echo RAM.
- `src/cpu.rs`: instruction fetch and execution, specified over a model of
  the whole machine; `src/cpu_laws.rs` holds laws of the instructions.
- `src/session.rs`: the debugger session that the window drives frame by
  frame.
- `app/`: the window (raylib), keyboard input and register display.
