# weixin

A carpool service for a WeChat official account: owners publish trips on fixed lines,
passengers book seats and pay through WeChat Pay, and when every passenger has confirmed
the ride the owner is paid out.

## Layout

- `src/` — the library, verified with Verus.
  - `text` — hexadecimal and decimal text, `u32` parsing as `str::parse` does it, the order of `str`.
  - `digest` — MD5 and SHA-1 through the `md5` and `sha1` crates.
  - `clock` — dates and times read by chrono, and the texts shown of them.
  - `params` — request parameters kept in key order, and the texts signatures are computed over.
  - `config` — the settings of the configuration file, by section and dotted name.
  - `model` — owners, passengers, lines, trips, orders, payment notices, login status.
  - `pay` — WeChat Pay unified orders, transfers, the page's payment parameters, and text messages.
  - `keyed` — lists keyed by text with no key twice.
  - `cache` — the service's memory of trips, orders and busy users.
  - `service` — the service's rules: payment checks, booking seats, completed payments, the end of trips.
  - `session` — sessions found by the `sessionid` cookie.
  - `db` — the names of the database collections.
  - `wx` — the official account: server checks, access tokens, and what each page decides.
- `tests/` — tests of the library on concrete values.
- `app/` — the program: the web server, MongoDB, HTTPS requests, the configuration file, and the
  minute timer.

## Collections

The service's memory (`cache`), its sessions (`session`) and signed parameters (`params`) are
keyed by text. Verus specifies `HashMap`, `HashSet` and `BTreeMap`, but with `String` keys it
proves nothing about them: not even that a map holds one entry after one `insert`. So these
tables are `Vec`s of key and value, with their invariants stated and kept: no key twice (and,
for the parameters, keys in ascending order, the order the signatures are computed over). A
lookup finds the entry of its key; where several entries could match (the first trip an owner
offers), the first stored one is taken, which is one of the choices an unordered map allows.
