# aiome

The decision-making core of the Aiome agent runtime, written in Verus and
proved against its contracts.

- `src/` is the verified library: input guards (`text_guard`, `guardrails`),
  the file jail (`fs_guard`), the network shield (`net_guard`), the Biome
  peer protocol (`protocol`, `dialogue`, `autonomous`, `federation`,
  `swarm`), the job queue's rules (`core_ops`, `lifecycle`, `karma`,
  `karma_cache`, `evolution`, `dream`), stream framing for model replies
  (`stream`), and the text work of the services (`knowledge`, `expression`,
  `taxonomy`, `context`, `heartbeat`, `media_forge`, `aiome_log`,
  `artifact`, `immune_system`, `scanner`, `python_check`, `init`).
  Calls into outside crates (regex, unicode-normalization, url, sha2,
  chacha20poly1305, base64, rand, uuid, chrono, serde_json) go through small
  trusted wrappers whose contracts name what they return.
- `tests/` exercises the library on concrete values.
- `app/` holds the I/O around it: disk access through the jail, guarded
  HTTP with DNS checks, the scanner's commands, model clients that stream
  through the verified decoders, the dialogue loop, and the floating-point
  scoring.

The SQLite job queue, karma and artifact stores are not part of this crate:
their rules (which job is claimed next, how lessons are labelled and cached,
when a verdict becomes karma, how an artifact is hashed and signed) are in
`src/`, and a storage layer calls them around its own queries.
