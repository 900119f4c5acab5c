# kafka_cli

A command line tool that produces single messages to a Kafka topic, reads them
back, and checks that what was read is what was written.

- `src/` is the verified library: the configuration files a command reads
  (`args`), Unix path handling (`path`), the client parameters of the cluster
  (`client`, `kafka_config`), the consumer's parameters, what it reads from
  and the text of its payload (`consumer`), the Avro side of producing
  (`avro`), the check that a container's schema names no type by reference
  before its values are decoded (`schema_refs`), the runs that produce a
  message (`producer`), a transition function from stage and event to next
  stage and action, and the comparison of a message read back with the file
  it was produced from (`round_trip`).
- `app/` is the program: command line parsing, file and network I/O, and the
  loop that carries out the actions a production run asks for. Where an event
  ends a run in failure, the program stops with the error, as the library's
  `failure` tells it.
- `tests/` runs the library on concrete values.

The cluster is configured from `KAFKA_ENDPOINT`, `KAFKA_SASL_USERNAME` and
`KAFKA_SASL_PASSWORD`; a schema registry from `SCHEMA_REGISTRY_URL`,
`SCHEMA_REGISTRY_USERNAME` and `SCHEMA_REGISTRY_PASSWORD`.
