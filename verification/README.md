# emb_public

The public library of the FlowPulse 3D printer control system, written in Verus: every
function under `src/` carries a contract, and every one with a body Verus reads is proved
against it. The exceptions are the small `#[verifier::external_body]` wrappers around std,
`uuid`, `serde_json`, `chrono` and `crossbeam` calls (in `src/common/foreign.rs`,
`src/common/json.rs`, `src/common/text.rs`, `src/common/debug.rs`, `src/gcode/parser.rs`,
`src/message_queue/queue.rs` and `src/shared_memory/types.rs`): their contracts are trusted,
not proved, and each doc comment says what is claimed of the outside function.

## Layout

- `src/common` — pin names, events, messages, text and byte helpers, the string map, JSON
  access, the debug switch.
- `src/config` — the printer configuration, the device configuration frames and their
  validation, the merge of the hardware, motion and printer files, the configuration store.
- `src/print_control` — print jobs, presets, the print controller and its state machine.
- `src/state_machine` — the printer state machine with its bounded history.
- `src/state` — the cached device state and what front ends are shown.
- `src/safety` — safety settings, check results and the emergency-stop latch.
- `src/message_queue` — the priority message queue.
- `src/dds` — topics, messages, filters, publishers, subscriptions and domains.
- `src/gateway` — WebSocket, UNIX socket and MQTT channels and their manager.
- `src/shared_memory` — the HMI shared memory record, its command rings and the segment
  registry.
- `src/gcode` — G-code lexing, parsing, preprocessing, file analysis and motion parameters.
- `src/api` — the core server protocol types and its length-prefixed framing.
- `src/core_client` — client settings and reply outcomes.

Real numbers are held as the bit patterns of single-precision floats; computations on them,
file and network I/O, asynchronous services and serialization live in `app/`, which calls
the library.
