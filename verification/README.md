# unitree_sdk

A verified core for talking to the Unitree Go2 over DDS, written in Verus.

- `src/` — the library, checked by Verus: every function has a contract (trait
  methods the contract of their trait), except the three clock readings, which
  promise nothing:
  - `cdr`, `cdr_prim`, `cdr_seq`, `le`: the XCDR2 (plain, little-endian,
    max-align-4) encoder and decoder, with the round-trip law
    (`CdrRoundTrip`), the self-delimiting law of reads, and the truncation law.
  - `msgs`, `unitree_go`, `unitree_hg`, `unitree_api`: the `DdsType`/`DdsPod`
    traits and the message types; `float32`/`float64` fields are held as their
    bit patterns.
  - `lowcmd`: Unitree's CRC32 over the C image of a `LowCmd` (with the law that
    it catches every single-word change), and its initialization for low-level
    control.
  - `qos`, `dds`: QoS profiles, the DDS error type, the interface
    configuration, and the decision step of a blocking receive.
  - `rpc`, `utlidar`: the steps that create the `motion_switcher` RPC client's
    and the LIDAR switch's DDS entities (with their QoS and clean-up), what the
    clients send, and how they read replies and decide when a wait or loop is
    over.
  - `topics`, `joint`: Go2 topic names and joint indices.
- `tests/` — the test suite, run against the compiled library.
- `app/` — the runtime side: `Display` error types, the float sentinels, the
  DDS participants, topics, readers and writers over a backend, and the loops
  that drive the library's steps with the wall clock and the raw DDS calls.
