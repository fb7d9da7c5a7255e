# dyxel_render_vello

The bookkeeping core of the Dyxel Vello render backend, written in Verus and
proved against its contracts: staged shader loading and the stages' shader
sets, the tagged pipeline-cache file formats, staged and two-stage start-up,
blur dirty tracking, texture sizing, atlas layout and atlas packing, the
texture pool and its byte accounting, the shadow-texture cache, the
triple-buffer ring, the CPU write path and buffer ring of the Android native
presenter, Vulkan capability checks, and the parsing of debug settings.

Layout:

- `src/` — the verified library. Every module states its behaviour in
  `requires`/`ensures` over spec functions; the laws that span several calls
  are public proof functions (`lemma_*`).
- `tests/` — tests of the library on concrete values.
- `app/` — the plain Rust around it: reading and writing cache files, the
  background loading threads, the environment and system-property lookups,
  a thread-safe texture pool, and the floating-point geometry of the blur
  pass.

Drawing with Vello and wgpu stays outside this crate; the library decides
what to load, copy, draw or keep, and the caller does it.
