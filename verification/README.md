# status_page

The FRKN status page: shows the visitor's external IP, whether a VPN (or a
FRKN server) is in use, the reachability of the FRKN servers and API, and the
connection speed.

- `src/` is the library, verified with Verus: interface texts (`i18n`),
  service statuses (`services`), a plain model of the JSON answers (`json`),
  IP information and FRKN nodes (`network`), the server checks and their
  summary (`checks`), addresses (`urls`), the page's state and display rules
  (`page`), and character-level string helpers (`text`).
- `app/` is the Leptos front end: it makes the requests, probes and timing
  measurements in the browser and hands their results to the library.
- `tests/` exercises the library on concrete values.
