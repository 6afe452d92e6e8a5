# femtovg (GPU backend logic, verified)

The decision logic of a GPU rendering backend for a 2D vector-graphics
canvas, written in Verus and proved against its contracts.

`src/` holds the verified library:

- `blend` — canvas blend factors and composite operations to GPU blend states;
- `pipeline` — pipeline states (stencil test, colour writes, culling,
  topology, shader variant) and the pipeline descriptions built from them;
- `stencil` — the stencil states of concave fills and stencil strokes;
- `params`, `floats`, `uniforms` — draw parameters, floats held as IEEE-754
  bit patterns, and the two uniform layouts;
- `images`, `bind_group` — texture descriptions, the image store, samplers,
  bind groups, and the bytes uploaded when an image changes;
- `commands` — draw commands and the steps each one asks for;
- `frame` — the render-pass builder and the bind-group/pipeline mapper, which
  describe their GPU work as a stream of `RenderOp`s;
- `setup` — what a renderer sets up once on its device: bind group layouts
  and the placeholder texture;
- `renderer` — the renderer state kept between frames and frame rendering,
  with the laws that every draw goes to the render target in force and that
  a frame creates each pipeline once.

`app/` is the unverified glue that owns the GPU device objects, turns each
`RenderOp` into device calls, and converts between the library's types and
the GPU API's.
