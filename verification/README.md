# hm_pi

The control software of a welding cell's touch-screen HMI: it talks Modbus TCP to a
ClearCore PLC and a Miller power source, keeps a cache of their registers, listens for
the PLC's UDP log lines and serves an htmx web interface.

## Layout

- `src/` — the library, verified with Verus: register maps and codecs, the register
  cache and its round-robin poll schedule, the connection rules of a Modbus link, the
  weld-profile decoder, the UDP log frame decoder and its HTML rendering, file-name
  rules and store listings, mount-table parsing, logins, and the decisions of the
  background tasks (gas bridge, register watcher, e-stop events) and web views.
- `app/` — the program around it: networking (tokio, tokio-modbus, axum), disk and
  environment access, serde and askama types, logging setup, and the few computations
  done in floating point.
- `tests/` — tests of the library on concrete values.
