# Audido

A terminal audio player whose core is written in Verus and verified.

- `src/` is the verified library: the playback queue and its loop modes,
  the YouTube PCM cache format and key, the file browser's listing and
  search paging, the reading of `yt-dlp` output, the navigation stack,
  the spectrum analyser's sample window and bin grouping, and the key
  handling of every screen, each with a contract that Verus proves.
- `app/` is the program around it: the terminal interface (ratatui),
  decoding and audio output (rodio), the file system, logging, the
  `yt-dlp` program for YouTube, and the floating-point equalizer,
  normalizer and FFT.
- `tests/` runs the library on concrete values.
