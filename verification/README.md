# libtabun

A client for tabun.everypony.ru (and other LiveStreet blogs), which offer no
API: the client signs in, reads profiles and blog pages, uploads images and
manages favourites by reading the site's HTML pages and JSON replies.

- `src/` is the library, verified with Verus: the addresses and forms the
  site expects (`site`), the reading of its replies (`replies`) and pages
  (`pages`, `profile`), the cookie jar (`cookies`), the data types
  (`types`) and the text primitives they rest on (`text`). The calls into
  the regex, unescape, url and select crates sit behind the contracts in
  `trusted`.
- `app/` holds the network side: `TClient` sends the requests with hyper
  and multipart and hands what comes back to the library.
- `tests/` runs the library on concrete replies and pages.
