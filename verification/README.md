# voxlume

Voxlume is an audiobook search site: browse audiobooks by author, series,
category, keyword and reader, search them, subscribe to authors, series and
readers, and be notified of new audiobooks.

This repository holds the site's logic as a library verified with Verus, and
the web application around it.

## Layout

- `src/` — the verified library (crate `voxlume`). Every function carries a
  `requires`/`ensures` contract that Verus proves.
  - `text` — decimal text, substring search and replace-all.
  - `entities`, `routes` — authors, series, categories, keywords, readers;
    their links, page templates, titles, and the route parameters of their
    listings.
  - `pagination`, `links`, `settings`, `requests` — page counts, the
    paginator, links and tags on audiobooks, download mirrors, and the
    requests pages send.
  - `sidebar` — the explorer sidebar's sections: requests, entries, filter,
    pages and state.
  - `notifications`, `subscriptions`, `auth` — the notifications page's list
    updates, the subscribe button, and the server's user and ownership
    decisions with their error texts.
  - `theme`, `layout`, `dates` — theme and display mode, small layout
    decisions, and the printed dates of notifications.
- `tests/` — tests of the library on concrete values.
- `app/` — the Leptos web application (pages, components, server functions).
  It renders what the library decides and performs the I/O; it relies on the
  project's data model (`entities_lib`) and server crate (`shared`).

## Trusted items

The library trusts three outside functions, each behind a contract documented
where it is declared: `String::push`, `str::to_lowercase` (`sidebar`), and
chrono's timestamp formatting (`dates`).
