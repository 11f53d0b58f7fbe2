# selu

The rules of a self-hosted assistant's update service and of its web layer, as a
verified library.

- `src/updater` holds the update service: image references and digests, the
  environment file of the compose project, which images must be kept, and the jobs
  that update the assistant, set it back, refresh the service itself and start the
  message bridge. A job is a value that says what it wants done next and is told how
  that went.
- `src/web` holds the web layer: the path prefix of a proxy, the shell of the single
  page application, and what its pages show, what its forms decide and where its
  requests lead.
- `src/text.rs` and `src/clock.rs` hold what both say about strings and moments.
- `tests` runs the library; `app` is the program around it: configuration, sockets,
  files, the database and calls of docker.

Contracts speak of strings as sequences of characters. Each property that relates
several functions is a proof function whose name starts with `law_`.

Where the library calls another crate (dates, time zones, passwords, random
identifiers, addresses, JSON, encodings), the call stands in a small function of its
own, and its contract says what is relied on.
