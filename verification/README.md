# jsh_sandbox

A web terminal onto a sandboxed Java shell. A websocket server starts a
Docker container per client and relays between the client and the
container; inside the container a small helper runs the shell on a
pseudo-terminal and decodes the framed input stream (data and resize
messages).

- `src/` is the verified library: the input framing (`inputproto`), the
  session decisions of the server (`session`), the helper's event dispatch
  (`pty`), the sandbox and command configuration (`sandbox`, `config`) and a
  uniquely owned heap cell (`uniqueptr`).
- `app/` is the program around it: sockets, Docker, the pseudo-terminal
  system calls and the async event loops, which hand events to the library
  and perform what it decides. Run with the argument `innerbin` it is the
  helper; otherwise it is the server.
