# krewetka

Part of a detection system for threats in a network. NetFlow v9 records that
a collector exports to Kafka are consumed by the *processor*, classified,
stored in ClickHouse and acknowledged; records whose storage fails go
through retry topics and finally a dead letter queue. The *reporting*
service answers statistics about the stored records over HTTP and a
websocket.

## Layout

- `src/` — the library, verified with Verus:
  - `decimal.rs` — decimal text of numbers, written and read back;
  - `messages.rs` — flow records, their metadata and acknowledgements;
  - `event_stream/` — Kafka headers and the metadata they carry, offsets,
    the offset guard that hands processed offsets to the consumer's store
    (and knows the stricter in-order way of storing them), retry
    routing and timing, and the decisions of the event stream actor
    (acknowledgements, pacing of the consumer);
  - `storage.rs` — the storage buffer, the acknowledgements of a flush and
    the ClickHouse connection string;
  - `classification.rs`, `migrator.rs`;
  - `reporting/` — date-times, the SQL of the statistics queries, results,
    errors and the throughput stream's state.
- `tests/` — tests of the library.
- `app/` — the services around the library: Kafka and ClickHouse clients,
  actors, the HTTP server and the migration tool. The classifier is a
  separate gRPC service whose client is generated from a protocol
  definition that is not part of this tree; `app/` issues the records to
  classify on the actor broker but starts no client for that service, so
  without one the records are not labelled or stored. Run it with `processor`,
  `reporting` or `migrator` as first argument; settings come from
  environment variables prefixed with `KREWETKA` (`__` separates levels).
