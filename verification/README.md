# matter_services

Verified message logic of a Matter node:

- `sc`: the messages and status reports of the secure channel, and which handshake
  an opening message asks for;
- `icd`: check-ins of intermittently connected devices;
- `bdx`: the serving side of a receiver-driven Bulk Data Exchange transfer, with
  laws of whole transfers in `bdx::laws`;
- `ota`: the OTA software update provider;
- `timed`: timed requests.

The library takes and returns plain values. `app/` runs it over the exchanges of a
node: receiving, sending and waiting happen there.

BDX bodies are decoded and encoded by `matter-bdx`, and nonces are compared by
`subtle`. What the library relies on of these crates is stated at the functions that
call them, in `bdx::codec` and `icd`. A cryptographic backend implements the traits in
`crypto`, an image the trait `bdx::serve::BlockSource`; the contracts of their methods
are what an implementation has to keep.
