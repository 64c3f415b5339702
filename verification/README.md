# colour_math

Colour arithmetic in fixed point numbers, with its contracts proved by Verus.

- `fdrn`: proportions (`Prop`) and unsigned and signed fixed point numbers
  (`UFDRNumber`, `FDRNumber`) in units of `u64::MAX`.
- `hue`, `hue::angle`: hues (primaries, secondaries and hues within sextants), the
  components of colours of a hue at a sum and chroma, and angles on the colour wheel.
- `hcv`, `rgb`, `attributes`: colours as hue, chroma and value or as light levels, and
  their scalar attributes (chroma, greyness, value, warmth).
- `urgb`, `urgba`, `notation`: colours as unsigned integer components and their text
  notations, read and written.
- `manipulator`, `mixing`, `image`: changing a colour step by step, mixing paints,
  and images of pixels.
- `beigui`: points, shapes and the hue wheel and attribute displays drawn on a
  surface that the user provides.

`app/` holds what floating point arithmetic needs: conversions to and from `f64`, and
the trigonometry that relates hues to angles.
