# niri_color

The HDR / wide-gamut color support of the niri compositor, with its decision
logic verified by Verus.

- `src/` — the verified library:
  - `color`: the color data model (named primaries, transfer functions,
    rendering intents, image descriptions) in exact fixed-point units:
    chromaticities in millionths, luminances in 0.0001 cd/m²;
  - `color_management`: the `color-management-v1` protocol — capabilities,
    parametric description building, identities, and the outcome of every
    request of every protocol object, with the protocol's laws as proof
    functions;
  - `hdr`: the HDR client dmabuf formats and their intersection with the
    renderer's formats;
  - `render`: surface render-element variants and the choices of the color
    shaders that do not involve floating point.
- `app/` — the Wayland dispatch glue (smithay), and the floating-point color
  math (glam) that computes shader uniforms.
- `tests/` — tests of the library.
