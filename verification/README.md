# gouda

The logic of a headless Matrix chat client that serves a chat application
over a local socket, written in Verus and verified.

The application and the client exchange length-prefixed protocol messages.
The library decides what each request calls for and where its answer goes,
keeps the caches of rooms, users, messages and reactions, builds the change
events that the application is sent, and decides how media is named and
stored; each public function states its behaviour in its contract.

- `src/`: the verified library.
  - `chat`, `builder`: the protocol's values, change events and how they apply.
  - `executor`: routing of requests and answers, and the framing.
  - `proto_cache`, `memory_cache`, `strmap`: the caches.
  - `media`: file extensions, media types, asset names and paths.
  - `client`, `rooms`, `messages`, `user`, `notifications`, `session`, `sas`,
    `bridge`: the client's decisions on requests and on the server's answers.
- `tests/`: tests of the library.
- `app/`: the runner that reads and writes the sockets, the command line, and
  the files of stored media and of the proto cache.
