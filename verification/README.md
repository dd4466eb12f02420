# yarrtube

The decision logic of a YouTube synchronizer built on yt-dlp: it watches
tracked playlists and channels, queues the downloads of new videos, and
cleans up the files of videos and containers that went away.

The logic is written in Verus and proved against its contracts:

- `src/domain/` — the value types the logic reads (channel handles,
  playlist ids, video record ids, qualities, timestamps), the stored
  records the handlers see, the queued `Task` and the kinds of task and
  domain event with the names they are dispatched under.
- `src/paths.rs` — joining an output directory under the videos root.
- `src/subscribers/` — what each domain-event subscriber decides: which
  container to look up, and which task to schedule once it was looked up;
  the registry of subscribers per event type.
- `src/tasks/` — what each task handler decides from its payload, the
  steps of the hourly yt-dlp self-update (update, then reschedule whatever
  the update returned), and the registry of handlers per task type.
- `src/http/` — the HTTP API around the services: the validation of each
  request (channel handles and URLs, playlist ids and URLs, playlist
  names, output paths, video ids, qualities,
  video limits, directory paths, playback positions), the status codes and
  messages of each outcome, the response bodies and the limit of
  recent-video listings.
- `src/cli.rs` — the commands of the program.

`app/` holds what Verus does not check: the clap, serde and axum forms of
the library's types, the decoding of JSON payloads, the axum handlers and
router (`app/api.rs`), and the drivers that perform the lookups, scheduling
and service calls the library decides on, through the traits in
`app/services.rs` and `app/api.rs`.
