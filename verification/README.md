# ethercrab

The protocol logic of an EtherCAT MainDevice, written in Verus: wire formats of commands,
PDUs, mailboxes, CoE services, EEPROM (SII) categories and registers; the decisions of SDO
uploads, mailbox handshakes, EEPROM reads and state transitions; distributed clock topology and
propagation delays; DS402 drive state handling; process data fields.

The code in `src/` is verified by Verus: no function in it can overflow or panic on the inputs
its `requires` admits, and the functions that compute a result state it in `ensures`, over spec
functions on byte sequences and plain values. Round trips (packing then unpacking a value gives
it back) are stated as proof functions next to the types.

Layout:

- `src/` — the verified library. `wire.rs` holds the little-endian encodings the other modules
  build on; `collections.rs` declares the `heapless` vectors the library fills and what is
  assumed of the methods it calls on them; `text.rs` writes numbers as decimal and hexadecimal
  text, from which the messages of errors, commands and AL status codes are built.
- `tests/` — tests of the library on concrete values.
- `app/` — unverified code around the library: text forms of its values, floating point process
  data, and blocking drivers that run the library's decisions over a user-supplied transport.
