# merchandise_catalog

A verified kernel for a merchandise catalog: exact money, the catalog's domain vocabulary, its
typed commands and queries, and the decisions the catalog repository makes around its SQL
statements. Every function in `src/` carries a contract that Verus proves, apart from two small
trusted wrappers whose contracts Verus takes on trust: `text::push_char` (std's `String::push`) and
`repository::parse_rfc3339` (chrono's RFC 3339 parser, whose result is only named, as a function
of the text).

## Layout

- `src/` — the verified library.
  - Money: `text`, `decimal`, `rounding`, `unit`, `money`, `allocation`. Amounts are exact
    integer minor units of a unit that carries its own scale and rounding mode; parsing refuses
    excess precision unless a rounding mode is named; allocation preserves the total.
  - Catalog service: `contract`, `domain`, `validation`, `commands`, `queries`, `ports`,
    `service`. Each domain enum owns one storage vocabulary and round-trips through it; commands
    and queries name the first blank required field; list pages are bounded to 200 records.
  - Repository decisions: `repository` (id parsing, guarded-write outcomes, failure
    classification, category tree moves, SKU price settlement and the guarded SKU price edit,
    currency registry rows, price-list windows), `variant` (the SKU variant signature, a function of the axis set), `axes` (turning
    submitted attribute values into sales axes), `media` (the id a media snapshot identifies).
  - HTTP surface: `envelope` (page blocks), `router` (int64 wire parsing and the route table,
    which serves exactly the declared capabilities), `catalog_store` (request and response data
    and the record-to-response mappers), `requests` (what a write route decides before the
    store sees the write), `host`.
  - Guarded writes: `guarded` (the order of a version-guarded write as a step function: rules,
    then the guarded statement, then commit, or probe and roll back, so a stale version or a
    missing row leaves the store as it was).
- `tests/` — tests of the library, run against the compiled crate.
- `app/` — the transport edge: serde shapes of the request and response data, the response
  envelope with its trace id, and the conversion of JSON documents into the library's values.

Laws that relate several functions are public proof functions named `law_*`.

## What is not here

- `contract::CommerceMoney` and `contract::ServiceError` are this crate's own versions of the
  service contract's money literal and error types. The rule that an amount is an unsigned
  decimal literal, trimmed, and its refusal message are this crate's choice; no source for the
  contract types was at hand to hold them against.
- The PostgreSQL statements, the HTTP router wiring and the database host bootstrap are not part
  of this crate, neither in `src/` nor in `app/`: the library holds the decisions those layers
  make (ids, rules, guarded-write order, route table), and `app/` holds only the serde shapes and
  the response envelope.
