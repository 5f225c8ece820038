# sada

Sada captures audio, encodes it (MP3, Opus, Ogg Vorbis, AAC, HE-AAC) and
streams it to Icecast or SHOUTcast servers, optionally recording to WAV.

- `src/` is the verified library: configuration defaults and migration,
  application state, source-connection requests and reply checks, metadata
  requests, the reconnect/backoff state machine of the network task, sample
  framing, the AAC encoder front end, and the WAV header layout. Verus
  proves the library's own functions against their contracts; the few
  small wrappers that call std, base64, percent-encoding and fdk-aac carry
  contracts that are trusted, each stating what that call documents.
- `app/` is the program around it: the desktop commands, audio capture,
  float sample processing, the MP3/Opus/Vorbis codecs, files and sockets.
- `tests/` runs the library on concrete values.
