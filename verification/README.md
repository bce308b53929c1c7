# auth_api

User management and authentication service: sign-up, sign-in with bcrypt
passwords, single-use access tokens with refresh tokens kept in a key-value
cache, role-based access control over registered resources, and user
administration over a document store.

## Layout

- `src/` — the verified library (Verus). It holds every decision of the
  service: request bodies and their schema checks, the replies of each
  route, the token procedures as state machines driven by the cache's
  answers, the key-value commands and how their replies are read, the user
  records and the store's decisions on them, access control, and the start-up
  registrations. Calls into outside crates (bcrypt, object identifiers, the
  clock, JSON-schema validation) stand behind small trusted wrappers whose
  contracts are documented where they are declared. Laws that span several
  functions are public proof functions named `law_*`.
- `tests/` — tests of the library on concrete values.
- `app/` — the HTTP server around the library: configuration from the
  environment, MongoDB and Redis access, JWT encoding and decoding, the
  access-check middleware and the routes. It hands the library plain values
  and carries out what the library asks for.

## Configuration

`DATABASE_URL`, `REDIS_URL`, `DOCS_PATH`, `SALT_STR` (22 characters of
bcrypt base 64), `SECRET`, `ADMIN_EMAIL`, `ADMIN_PASSWORD`, `RESOURCES`
(the path of a JSON file holding a list of `{ "path", "access", "method" }`), `API_SERVER_ADDRESS`,
`API_SERVER_PORT` and `WORKER_THREAD_NUM`, read from the environment at
start-up.
