# fixfiction

Embed pages for Fimfiction stories, users and blog posts, with their
contracts proved by Verus.

- `src/` is the verified library: the request options (`structs`,
  `utility::parse_parameters`), the preview and cleaning of text
  (`utility`, `text`), the HTML head of the three kinds of page (`story`,
  `user`, `blog`, `html`), what the cache keeps of a record that the API
  sends, and the calls into `regex`, `chrono` and `url` (`external`), each
  with the contract the rest relies on. `laws` holds properties that span
  the pages.
- `tests/` runs the library on concrete values.
- `app/` is the server: HTTP handlers, the PostgreSQL cache and the
  Fimfiction API client.
