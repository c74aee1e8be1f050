# aifficator

The verified core of Rau Studio, a desktop studio for DJs: an internet radio
that publishes playlists to Icecast through FFmpeg, peer-to-peer catalog
search, file transfer and chat, and Turn, a renderer of spinning-record videos.

## Layout

- `src/` is the library, verified with Verus.
  - `broadcast/`: the Icecast profile and its validation, the FFmpeg command
    lines, PCM mixing of the microphone, the queue plan of a playlist, the
    broadcast status, and the state machines of the worker loop and of the
    playback of one entry.
  - `p2p/`: the bounds and checks of the catalog, file and chat protocols, the
    length-prefixed file header, and delivery accounting.
  - `system.rs`: the candidates for the FFmpeg binaries and the rule that picks one.
  - `turn.rs`: file names, colors, the circular mask, FFmpeg's progress lines
    and the render command line.
  - `application_audio.rs`: which running applications are offered for audio
    capture, in what order, and how captured samples become stereo frames.
  - `text.rs`, `clock.rs`: string helpers stated over `Seq<char>`, and the
    calls into `chrono`.
- `tests/` runs the library on concrete values.
- `app/` is the desktop side: SQLite storage, FFmpeg processes, HTTP, threads,
  the peer streams, and the floating-point settings of Turn and of captured
  audio.
