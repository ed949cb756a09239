# jicloud_logic

The decisions of an educational content platform's services, verified with
Verus:

- `src/image.rs`: reading the missing metadata out of a Postgres
  foreign-key error, and telling a conflicting delete from other failures.
- `src/image_flow.rs`: the image endpoints (create, upload, update, delete,
  search, lookups) as state machines from outcome to next action.
- `src/category.rs`: the requests and paths of the category administration
  client.
- `src/pages.rs`: the page server's routing and cross-origin policy.
- `src/signin.rs`: the Google sign-in flow.
- `src/meta.rs`: the metadata records.
- `src/text.rs`, `src/ids.rs`, `src/db_error.rs`: string helpers, UUID
  parsing and the database error accessors (through `uuid` and `sqlx`).

`app/` holds the serde forms of the records, the warp CORS builder and
body limit, the category request bodies, and runners that drive the
library's state machines through effects the service provides.
