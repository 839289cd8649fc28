# captainfact

A scraper for the CaptainFact fact-checking platform, and a small web front-end
that lists what it scraped. The core is verified with Verus.

- `src/` is the verified library:
  - `data`: what the CaptainFact API sends, the search of a channel's messages
    for the first reply holding a video, statements or comments, and the
    conversion of each item into a database record;
  - `model`: the database records and the layout of their relations;
  - `time`: dates read with `chrono` (the only trusted code of the library,
    with `web::pagination_to_sql`);
  - `request`: the messages and addresses sent to the API;
  - `scrape`: the statements and comments stored for a video, the budget of
    websocket reads of a request, and the paging through the index of videos;
  - `sorting`: the stable sort of comments by id;
  - `errors`: the scraper's errors and the outcome of a login;
  - `web`: the SQL, addresses and error pages of the front-end.
- `app/` runs the scraper (HTTP, websocket, PostgreSQL) and serves the
  front-end (`captainfact serve`).
- `tests/` exercises the library on concrete values.
