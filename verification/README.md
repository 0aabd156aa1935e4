# site_backend

The verified core of a company website's back end (products, gallery, board
members, editable content, the home-page banner, staff accounts, uploads).

- `src/` is checked by Verus. It holds who may do what (roles, the token
  check, the account rules), how a session token is issued and read, password
  hashing and checking (through bcrypt), how uploads are assembled and
  served, start-up settings, and, for every endpoint, what it answers for each
  outcome of its storage work.
- `app/` is the actix-web server around it: routing, the database queries,
  token signing and decoding, and the JSON forms of the library's types.
- `tests/` runs the library on concrete values.
