# light_client_commons

The start of a light client of a data availability chain, as a library whose decisions are
verified.

- `src/logging.rs`: the log level that a text names, and the subscriber that writes the log.
- `src/database.rs`: how the database is opened, column family by column family.
- `src/address.rs`: the address on which the client listens.
- `src/params.rs`: the digest of the public parameters that the log shows.
- `src/config.rs`: what a start is given.
- `src/launch.rs`: which tasks are launched, in which order, and over which channels they talk.
- `src/startup.rs`: the start as a sequence of actions and replies.
- `src/laws.rs`: what holds of every start, whatever the outside answers.

`app/` is the program around the library. It opens the database, talks to the network and to the
node, and starts the tasks, as the library says. What the program has besides (the network stack,
the node's interface, the stored records, the tasks themselves) it takes through a trait.
