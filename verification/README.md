# rfc

A NES (Famicom) emulator core written in Verus: the 6502 CPU, the CPU bus, the PPU's
registers and memories, the APU's channels and frame sequencer, the cartridge formats
and mappers 0-4, the controllers, the configuration and key bindings, the ROM menu and
the sample ring between emulator and audio output. Every function in `src/` carries a
contract over a mathematical model of its state, and Verus proves it, with one
exception: the wrapper around std's `str::to_lowercase`, whose result is only named
(`lowercase`) and trusted. The other trusted items are a declaration of std's `PathBuf`
and a specification of its `clone`.

- `src/` — the verified library. Each module states its model (`...Model` ghost
  structs and `View` impls), the specification of every operation, and the laws that
  relate operations (public `lemma_*` proof functions).
- `tests/` — tests on concrete values.
- `app/` — the program around the library: window and keyboard (winit), reading ROM
  and configuration files (toml, dirs), logging, and the floating-point audio mixer.

Run the emulator with a `.nes` file as argument; `rfc.toml` in the working directory
or in `<config dir>/rfc/` configures scale, ROM directory, keys and hotkeys.
