# SMB2/SMB3 client library building blocks

A library of SMB2/SMB3 client pieces whose behaviour is stated in Verus
contracts and proved: protocol constants and record shapes, NT status
tables, `smb://` URL and option parsing, client context bookkeeping and the
request records it queues, DCE/RPC, LSA and SRVSVC records, framing helpers
of the cryptographic layers, in-memory transports and a file system handler.

Layout:

- `src/headers/` — byte order helpers, the owned list, and the SMB2 protocol
  headers (public client API, raw commands, status codes, DCE/RPC, LSA and
  SRVSVC interfaces).
- `src/engine/` — the client library: context initialisation and URL
  parsing, the client context and its operations, compatibility helpers and
  in-memory transports, DCE/RPC state, LSA and SRVSVC records, ASN.1 BER,
  MD4, HMAC-MD5, AES and AES-CCM framing, Kerberos state, the allocation
  arena and the file system handler.
- `src/text.rs` — UTF-16 conversion and string building.
- `tests/` — tests of the library on concrete values.
- `app/` — what needs the process, the network, the environment, global
  state or the build target, and the `Display`/`Error` forms of the error
  types.

Not present, because the modules they are built on are not part of the
sources this library was written from:

- the SHA engine (`usha`) and with it the SHA contexts `UshaContext` and
  `HmacContext` and the one-shot `hmac` function; the SHA variant sizes,
  the HMAC error values and the digest type are present;
- the synchronous request layer (`sync`) and with it `SmbOpenRequest` and
  the file system handler's `smb_open`, `smb_close`, `smb_read`,
  `smb_write`, `smb_rename`, `smb_unlink`, `smb_stat`, `smb_mkdir`,
  `smb_rmdir`, `smb_readlink` and `smb_fstat`.
