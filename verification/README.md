# libstealthtech

A verified library for the BLE protocol of Lovesac StealthTech Sound + Charge
systems, with the command-line tool, web server and WebAssembly bindings built
around it.

- `src/` — the library, proved with Verus:
  - `commands`, `characteristics`, `response_code`: command encoding and
    validation, notification decoding, UUIDs and limits.
  - `state`, `report`: the device state kept from notifications and sent
    commands, and the state report of the web API.
  - `command_json`: commands described as JSON text and values.
  - `connection`, `scanner`: reconnection backoff and decisions, device
    name matching and selection.
  - `gatt`, `gatt_report`, `sniff`: GATT profile description and grouping,
    and the texts of the protocol-analysis tools.
  - `docs`, `serve`: documentation pages, sitemap, static file serving and
    REST request values.
  - `laws`: properties that span several functions.
  - `text`: string helpers and the calls into `std`, `hex` and `uuid`.
- `tests/` — tests of the library on concrete values.
- `app/` — the program: BLE transport (btleplug), the CLI, the web server
  (axum) and the WebAssembly exports, around the library's functions.
