# onyx-server

The server of one ONYX group or channel: registering, messages, comments,
reactions, polls, roles, moderation, donations, avatars and media.

`src/` is the library, verified with Verus. It holds the rules of the server and
touches neither the network nor the disk. A request goes through it in three
steps:

1. `query` and the `..._queries` functions say what to ask the database.
2. A handler in `handlers` takes the request and the answers (`error::Lookup`),
   and decides: it refuses with an `error::AppError`, or gives an
   `outcome::Outcome` with the changes to make, the notices to send and the reply.
3. `store` turns each change into a statement.

`group` models the tables and what each change does to them. The laws of the
library are stated over that model, as public proof functions next to the
handlers that they are about. Hashes, signatures, base64, random bytes and clocks
come from other crates through the few trusted functions in `crypto`, `clock`,
`text`, `media::local` and `handlers::media`.

`app/` is the program around it: the routes, the database connection, the files,
the upload providers and the process manager.

`tests/` runs the library on concrete values, and every statement and question on
an in-memory database.
