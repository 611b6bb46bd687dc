# scard_nfc

The verified core of an application-framework binding for NFC smart-card
readers driven through a PC/SC glue library.

- `src/` is the library, with its contracts and their proofs:
  - `card`: what the reader monitor's state bits say about the card slot;
  - `error`: the binding's error, an identifier and an explanation;
  - `text`: decoding the C strings that the reader library returns;
  - `client`: reader commands, and the outcome of each reader-library call
    (connection, reader check, card UUID, command lookup, read and write);
  - `handle`: the card handle, and card operations as a sequence of typed
    steps (reader check, then UUID, then the command);
  - `monitor`: the monitoring verb, which starts at most one reader
    monitoring thread and (un)subscribes its callers;
  - `binding`: the binding's configuration defaults and the verbs it declares.
- `app/` drives those steps against the reader library, seen through the
  `ReaderLib` interface, and holds the serialised form of the monitoring
  verb's argument.
- `tests/` runs the library on concrete values.
