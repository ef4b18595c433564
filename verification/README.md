# icon-toolkit-core

Icon-set generation, image conversion and AI icon requests, with the decisions
verified by Verus.

- `src/` is the verified library. It plans what an icon-set generation or an image
  conversion does (every directory created, every file written, at which size and
  with which padding, in order), lays out and composes icon canvases, decodes source images, packs ICO files,
  embeds PNG data in SVG documents, parses colour
  codes, works on Unix paths, builds the AI provider requests and steps the AI
  generation state machine from one HTTP reply to the next. The contracts state each
  result exactly; the public `lemma_*` proof functions state the laws that relate
  several calls.
- `app/` is the command-line program: it reads and writes files, resizes, blends,
  rounds and renders images (floating-point work), talks to the AI providers over HTTP, and carries out the plans
  that the library computes.
- `tests/` runs the library on concrete values.
