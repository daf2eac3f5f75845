# gba_video

The rendering core of a Game Boy Advance style video unit, verified with Verus.

- `src/bitfield.rs`: replacing one field of a 16-bit register word.
- `src/registers.rs`: display control, status, background control and scroll
  registers, with field accessors and a reader for a 32-byte register image.
- `src/video.rs`: colours, 4- and 8-bit tiles, tile map entries, video memory
  and palettes.
- `src/objects.rs`: sprite attribute words and object attribute memory.
- `src/pixel.rs`: the per-pixel compositor. `Video::pixel` specifies the
  colour of a pixel as the first layer, in (priority, sprites before
  backgrounds, number) order, that is opaque there; `try_get_pixel` computes
  it or names the unsupported configuration it meets, `render_frame` fills a
  whole screen buffer, and the `law_*` proof functions state the
  drawing-order properties.
- `src/remap.rs`: relocation of emulated memory addresses, and the register
  fix-up a memory fault handler applies to a faulting load or store
  (`fault_recoverable` tests whether it can).
- `app/main.rs`: a desktop viewer that renders memory dumps in a window.
