# wolfusb

Share USB devices over IP: a server exposes its USB devices over TCP, and
clients list them, attach to them and run control, bulk and interrupt
transfers on them, with an optional pre-shared key (HMAC-SHA256) handshake.

The protocol core is a Verus library (`src/`), verified against its contracts:

- `protocol/`: message types, the length-prefixed frame codec (frames read back
  as written; oversized frames refused).
- `auth`: the HMAC proofs of the handshake.
- `client/`: the Hello a client sends and its check of the answer, what it makes
  of every reply, command-line numbers and hex payloads, and the printed text.
- `server/`: per-connection dispatch (no request served before authentication
  when a key is set; only the connection's own sessions are used), the device
  manager (one holder per device, fresh session ids, cleanup when a client
  leaves), transfers, and the USB/IP export records read from sysfs.
- `bridge/`: USB/IP PDUs (encoding and decoding, read back as written) and the
  vhci_hcd status table and attach line.
- `text`, `buffer`: integer parsing and formatting as std does it, and byte
  buffers (`bytes::BytesMut`).

`app/` is the program around it: the command line, sockets and TLS, rusb, sysfs
and the message encoding with bincode. `tests/` exercise the library.
