# statuses

The statuses core of a federated microblogging server, verified with Verus:
who a status is addressed to, what is sent for it, what is made of the
Activities of other servers, and how boosts, favourites, bookmarks, pins,
polls and idempotency keys behave.

## Layout

- `src/` is the library. Reading and deciding alternate in it: a stage is a
  value that names what has to be read next, and handing the answer to it
  gives the next stage, an error, or the changes to make, in order.
  - `domain`, `model`, `error`, `clock`, `json`, `text`, `order`: the values.
  - `addressing`, `activity_builder`: what is sent, and to whom.
  - `inbound_handlers`, `create_note`, `inbound_note`, `note_ingest`,
    `ingest_service`: what is received, delivered or fetched.
  - `interaction_service`, `interaction_repository`, `interaction_rows`,
    `poll_service`, `poll_repository`, `idempotency`, `account_provider`: what
    local actors do and see.
  - `endpoints`: how requests are read.
  - `effects`, `store`: the changes, and what stays true of the rows under
    them.
  - `wire`: what one server publishes is what another reads.
- `app/` runs the stages against Postgres, HTTP and the rest of the server.
- `tests/` runs the library on concrete values.

## What is taken on trust

Four functions call out of the verified world, each with its contract beside
it: writing and reading RFC 3339 times with `time` (`clock`), the text of an
HTTP status code with `http` (`ingest_service`), and the quoted form of a text
(`endpoints`).

The rows of favourites, bookmarks, pins and idempotency keys are looked up by
the library, in rows that `app/` read. Their inserts and deletes are made by
the database: `interaction_rows` and `idempotency` state and prove what they
amount to on rows in memory, and nothing proves that the statements in `app/`
do the same.
