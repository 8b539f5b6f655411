# tunelo

Proxies for TCP: reaching hosts through SOCKS4a, SOCKS5 and HTTP-tunnel
proxy servers, chains of them, and a checker that probes proxy servers.

The library under `src/` is verified with Verus:

- `net`, `text`: IP and socket addresses, their text, and the text
  routines they are read and written with.
- `common`: host addresses, proxy servers and strategies (one proxy or a
  chain), time spans.
- `protocol`: the SOCKS4a and SOCKS5 messages, and the head of an HTTP
  response (read with `httparse`).
- `client`: the way to a host through a strategy, and the handshakes with
  each proxy, as steps that take the bytes read and give the bytes to send.
- `checker`: the probes a proxy server is put to, and their reports.
- `filter`: filters of hosts and their composition.
- `authentication`: users and the methods they authenticate by.
- `command`: the configurations of the program's commands and the rules
  that turn them into server options, proxy chains and checkers.

`app/` is the program: the command line, the configuration files, and the
network input and output that the library's steps ask for.
