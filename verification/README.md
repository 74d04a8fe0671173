# kb_svc

The verified core of a personal knowledge-base service: the `kb-core`
command line, the local store's layout and decisions, the IPC rendezvous
files, the protocol data, and the decision logic of the browser chat hub
and its settings.

- `src/` is the library, written and proved with Verus. Each public
  function states its result in its contract; the laws of the library are
  public proof functions (`law_*`).
- `app/` is the `kb-core` program around it: command-line input, the file
  system (the local store and the settings file), standard output and JSON
  encoding.
- `tests/` runs the library on concrete values.

Modules of `src/`:

| module | what it holds |
| :--- | :--- |
| `args` | the `kb-core` command line and its usage errors |
| `ids`, `protocol`, `llm`, `wire` | identifiers and the data of both protocols |
| `layout`, `store`, `title`, `order` | where objects live, session summaries, titles, listing order |
| `service` | the service's handshake and its simulated answers |
| `calendar` | civil dates of day counts and the `YYYYMMDD` form |
| `rendezvous`, `socket_path`, `starter` | endpoint name files, socket paths, starting `kb_core` |
| `settings`, `settings_toml`, `settings_file`, `settings_api`, `launch`, `assets` | LLM services, reading and writing their file, comment-keeping edits of it, the settings endpoints, start-up parameters |
| `hub`, `chat_session`, `client_reply`, `cli` | chat hub decisions, chat connection frames, client replies, command output |
