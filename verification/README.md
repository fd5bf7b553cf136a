# pipeline

Building blocks for media pipelines in the style of gstreamer pads: stream pads
produce data, sink pads consume it, and link elements sit between them. The format
of each connection is either given by the caller or negotiated: the first format
offered by the producing pad that the consuming element accepts.

- `src/` is the library, verified with Verus: the pad traits, format negotiation,
  the pipeline builders (which connect pads and hand out the channel ends of each
  connection), the rule of a running link, the fan-out/join rules of one-shot
  channels, the supervision of a running pipeline, and the media format types.
- `app/` is the async runtime side: the async channel traits, the tasks that move
  data between channel ends, spawning on tokio, the pipeline workers and macros,
  and an audio example.
- `tests/` exercises the library on concrete pads and formats.
