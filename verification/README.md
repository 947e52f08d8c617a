# holikeyz

Control and set-up library for Wi-Fi ring lights that speak the `/elgato`
HTTP protocol, written in Verus. The library's own functions state their
behaviour as contracts and are proved against them. The calls into outside
crates (HMAC-SHA256, Base64, AES-256-CBC, UUIDs, hex decoding, the clock,
the random source) and a few `String` operations sit behind small trusted
wrappers whose contracts are assumed, not proved; each one's doc comment
says what it claims.

## Layout

- `src/models.rs` — the light's state and the Kelvin ↔ device-scale
  conversion, with its range, monotonicity and round-trip laws.
- `src/api.rs`, `src/cli.rs` — what each HTTP request carries and how
  command-line choices become light states.
- `src/light_service.rs` — the desktop service's state cache: what each
  command changes and which request it sends.
- `src/discovery.rs`, `src/config.rs` — the registry of announced lights and
  the choice of the active light.
- `src/provisioning/` — sessions, signatures and tokens, the light's
  encrypted Wi-Fi payload and sealed credentials, the direct-provisioning
  order, the guided provisioning flow, the access point's
  configuration files, saved credentials, and the parsers of what the
  network tools print.
- `src/text.rs`, `src/sort.rs` — character-level helpers and a stable
  ordering by key.
- `app/` — the command-line tools, the HTTP client and server, mDNS,
  keyring and process calls around the library.
- `tests/` — tests of the library on concrete values.
