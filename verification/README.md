# nodescale_state

The durable state of Nodescale as a verified library: what every operation on
networks, devices, invitations, provider imports and provider mutations decides,
refuses and records.

The library in `src/` does no input or output. Each operation takes the stored
records that it is about, and what other components answer, as plain values. It
returns the records as they are to be stored and the events that the audit trail
gets, or an error with nothing changed. Its contracts say when each error comes
and exactly what a success does.

- `audit`, `metadata`, `json`: the audit trail, and what may be recorded in it
- `authorization`, `capabilities`: the owner's authority over provider mutations
- `config`, `snapshot`, `observation`: what is expected of a provider, and which
  answers are accepted
- `inventory`, `paging`, `reconcile`, `effects`, `import`, `report`: the inventory
  of observations, and applying snapshots to it
- `records`, `store`: networks, devices, join sessions, revocations, generations
- `lifecycle`, `redemption`, `dispatch`, `cleanup`, `laws`: invitations that are
  fenced against the provider, from their issue to their end
- `migration`, `rowdigest`: opening a database and bringing its schema up to date
- `error`, `ids`, `names`, `rules`, `text`, `time`, `digest`: the vocabulary

`app/` keeps the records in SQLite around the library: it runs the transactions,
turns rows into values and back, and talks to providers. What the domain model
answers comes through its `Domain` trait, and the migration scripts are handed in.

`tests/` runs the library on concrete records.
