# commanda

The rules of Commanda, a GNOME companion that serves a remote-control web page
(weather, wallpaper, now-playing media, QR code of the server address), as a
library verified with Verus.

- `src/` — the verified library: text helpers, the response cache, weather
  codes and addresses, media-player (MPRIS) rules and metadata, routing of the
  web server, wallpaper address extraction, the server address, the QR code
  image and the user record.
- `tests/` — tests of the library on concrete values.
- `app/` — the GTK application, the web server and the D-Bus / HTTP I/O, which
  call the library for every decision.
