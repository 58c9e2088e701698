# hwmr

The host side of Headless Web Music Remote: a headless Brave runs on a
Windows PC, a phone on the same trusted LAN sees its rendered frames and
controls it over the Chrome DevTools Protocol (CDP). Audio stays on the PC.

The library under `src/` is written in Verus. Its functions carry contracts
that Verus proves, except for a few small trusted wrappers (marked
`#[verifier::external_body]`) around outside crates and std: Base64
(`base64`), URL parsing (`url`), form encoding (`form_urlencoded`), OS
randomness (`getrandom`), QR encoding (`qrcodegen`) and `String::push`.
Verus believes their contracts without proof; each one's doc comment says
what it claims of the code it calls.

- `config` — environment overrides (viewer port, JPEG quality, frame
  cadence), viewport limits, the CDP parameter objects, the browser command
  line, `DevToolsActivePort` handling and the browser launch steps.
- `auth` — pairing code, two-minute QR nonces, session tokens, and the laws
  that tie them together (single-use nonces, logout revocation, ...).
- `qr` — connection links, QR rendering (via `qrcodegen`), QR issuing.
- `cdp` — page targets, command ids, command framing, reply checks, routing
  of browser messages, the tab list.
- `control` — each phone control as a script of CDP commands, run one reply
  at a time until it yields exactly one answer.
- `tabs` — the steps that move streaming to another tab.
- `input`, `access`, `audio` — key mapping and the address bar, origin
  policy, audio report.
- `text`, `json`, `encoding` — strings, JSON text, Base64, form encoding, hex.

`app/` is the executable: HTTP/WebSocket server, process launch, CDP
sockets and the Windows APIs. It performs the I/O the library decides on.
`tests/` exercises the library on concrete values.
