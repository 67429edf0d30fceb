# creaters

The logic of a small illustration-posting site, verified with Verus.

- `src/` is the library. `text` (trimming, prefix stripping), `reply`
  (flash redirects, upload replies, account page paths), `password`
  (bcrypt hashing and checking), `signup`, `signin`, `saved` (values saved
  from multipart fields and the names of uploaded files), `creater_setting`
  (profiles), `news_posts` (posts, their creation time, listing filters),
  `image` (the plain image uploader) and `pages` (page contexts).
- `app/` is the Rocket server around it: routes, cookies, multipart
  parsing, database queries with Diesel, templates.
- `tests/` runs the library on concrete values.
