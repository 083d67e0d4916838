# trackhub

A music hub that resolves tracks (from its PostgreSQL catalogue or a Python
metadata service), downloads their audio with yt-dlp, tags them (tempo, key,
lyrics from LRCLIB) and answers clients over a line-based JSON protocol.

- `src/` is the library, verified with Verus: the catalogue model, video-ID
  recognition, the clean-up of service payloads (`json`), the service's
  request and reply handling (`python_client`), row assembly, save plans and
  purges (`repository`), the yt-dlp command line and failure report
  (`download`), the lyrics search (`lyrics`), and each track-manager
  operation as a state machine that asks for one piece of outside work at a
  time (`manager`). `laws.rs` holds the properties that span functions.
- `app/` is the program around it: the Tokio server, the database queries,
  the TCP client of the service, the HTTP client of LRCLIB, the yt-dlp
  process, and the serde forms of the library's types.
- `tests/` runs the library on concrete values.
