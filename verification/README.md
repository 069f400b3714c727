# Stellarust

A dashboard backend that watches a save-game directory and streams change
notifications to browsers as server-sent events, with a small yew front end.

- `src/` is the verified library: event frames (`sse`), the client registry
  and the exact sequence of frames offered to clients, with each offer's
  outcome (`broadcaster`, `broadcasterr`, over the channels in `transport`;
  what a client goes on to read rests on tokio's channel and is not proved), the watch-loop decisions (`watch`), the file reader's channel
  (`file_reader`), the server's listening target and CORS policy (`server`),
  the served document (`api`, `data`), and the browser components' state
  machines (`frontend`).
- `app/` is the program around it: the actix-web server, the notify watcher,
  the worker threads and loops, and the yew components that render the
  library's states.
- `tests/` exercises the library on concrete values.
