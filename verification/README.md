# wholesum

The verified core of a peer-to-peer proving network's messaging.

- `src/blob_transfer.rs`: the blob-transfer frames. A request is the UTF-8
  text of a blob hash, read through a 1024-byte buffer; a response is a
  four-byte big-endian length header and the blob's bytes, read until the
  stream ends. `ResponseReader` holds the decisions of the read loop; the
  loop itself, which awaits the stream, is in `app/`.
- `src/gossip.rs`: identifiers of gossiped messages, the decimal text of the
  `DefaultHasher` digest of their data.
- `src/network.rs`: protocol names and timeouts.
- `src/protocol.rs`: the messages exchanged by clients and provers.
- `app/`: the libp2p codec, swarm and transport setup, progress bars, and the
  serde forms of the protocol messages.
