# rust_driver

The verified core of the Blue-RDMA device emulator, written in Verus.

- `src/` is the library. It decodes and encodes the 32-byte descriptors of
  the four queues (command request, command response, meta report, send),
  keeps the control/status registers, moves bytes between the device and host
  memory a 64-byte word at a time, cuts RDMA writes into packet segments,
  serves doorbells and answers command requests. The memory behind the
  device records every word write (client id, word, bytes, byte-enable
  mask), so the contracts fix what is sent as well as what is stored.
  Every function carries a contract that Verus proves; the laws that span functions are public proof functions (`lemma_*`).
- `tests/` runs the library on concrete values.
- `app/` is the unverified plumbing around it: page-aligned buffers, the
  threads that serve register accesses, the queue worker loops, IPv4 views of
  addresses, error types with `std::error::Error`, and the replay of captured
  network fragments from JSON files.

The one call into another crate that the library makes is
`eui48::MacAddress::new` (`types::new_mac_address`), whose contract is trusted.
