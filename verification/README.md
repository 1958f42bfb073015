# sshws

The verified core of a small tunnelling setup: `sshws`, an HTTP `CONNECT` / SOCKS5
proxy, and `engselbot`, a Telegram bot that hands out VLESS / Trojan / VMess
configurations and checks XL/Axis data quotas.

- `src/` is the library, verified with Verus: header and request-line parsing, the
  proxy's access rule, the SOCKS5 negotiation as a state machine, `host:port` splitting,
  and the bot's command handling, reports and texts. One access rule governs both
  protocols: with a password set, only clients that present it (in `X-Pass`; a SOCKS5
  client presents none) are tunnelled; without one, only targets whose host is
  `127.0.0.1` or `localhost`. `src/outside.rs` holds the few
  calls into std, base64, serde_json, uuid and reqwest whose contracts are trusted.
- `app/` is the program around it: sockets, Telegram, PostgreSQL and HTTP calls. It
  runs the bot when invoked as `engselbot` and the proxy otherwise.
- `tests/` runs the library on concrete inputs.
