# limusic

Turns a video id into a playable audio stream.

`src/` is the verified library. It makes the decisions of the playback path and performs no I/O. One
choice is made outside it: the `/player` service behind `app/` reads an answer and picks its format
for the wanted quality, and the library takes that format as the answer's `picked`.

- `clients`: the client identities and the orders in which they are tried;
- `model`: what is read of a `/player` answer;
- `playback`: playback data, errors, and the rules that compare formats and choose headers;
- `stream_url`, `probe`: stream URLs, the tokens they carry, and the request that tests them;
- `failures`: what is remembered of failed streams and self-heals;
- `rustypipe_fallback`: which stream of an extracted video to play;
- `chain`: the rules of a resolution, call by call;
- `resolver`, `orchestrator`: the machine that follows them;
- `outcome`: what a resolution comes to, as a function of the answers, and the proof that the
  machine arrives there;
- `laws`: what holds of every resolution;
- `runs`: that no call is made twice, so that the laws speak of every run;
- `text`, `string_map`: text helpers and small collections.

`app/` performs the calls that a resolution asks for. Two calls into other crates are trusted: URL
parsing (`reqwest::Url`) and percent-encoding (`urlencoding::encode`), both in `stream_url`.
