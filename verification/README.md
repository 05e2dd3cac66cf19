# searxng_search

A search tool for self-hosted [SearXNG](https://docs.searxng.org) instances, verified with Verus.

The library (`src/`) holds what the tool decides and computes:

- `tool`: the settings, and the bounds they are brought into
- `base_url`: which base URLs requests are sent to
- `categories`: which search categories a call asks for
- `args`, `schema`: the arguments of a call, and how they are described
- `request`: the request that a call leads to
- `exchange`: the course of a search, as a state machine that is driven by events
- `status`, `error`: which answers count as success, and what a failure is reported as
- `response`, `render`: what an instance answers, and how it is shown
- `fingerprint`: a mark for a query in the log
- `text`: the operations on text that the rest is built from

Each public function states its result over spec functions on character sequences. The laws of
the library are the proof functions whose names begin with `law_`.

The application (`app/`) sends the requests with `reqwest`, reads and writes JSON, and logs.
