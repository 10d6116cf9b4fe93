# xosms

A media player that an application shows to the media service of its operating system: over MPRIS on
Linux, over Now Playing on macOS, over the system media transport controls on Windows.

- `src/` is the library. It holds what a player knows, decides and announces, with contracts that
  Verus proves. Each platform has its own module (`linux`, `macos`, `windows`); `listeners`, `types`
  and `span` are shared. Times and rates are binary64 numbers held by their bit patterns (`double`),
  with arithmetic proved against exact rounding (`rounding`, `arithmetic`, `conversion`, `numbers`).
- `tests/` runs the library on concrete values, against the processor's arithmetic and against the
  crates whose conventions it follows.
- `app/` is the Node.js addon: it carries values between JavaScript, the library and the media
  services.
