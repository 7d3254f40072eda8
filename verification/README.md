# RGB Lightning node

The decisions of a Lightning node that moves RGB assets, verified with Verus. The library in `src/`
does no I/O: it takes plain values, and says what is to be done next. The program in `app/` does it.

## How it is built

Work that touches the outside world step by step is written as a state machine: a *step* names what
has to be done, a *reply* says what came of it, and `advance` goes from one step to the next. What
follows from each reply is stated in the contract of `advance`, and the laws of each module are proved
over these statements: a journal entry is written before the action that it covers, evidence stays
until the work it proves is durable, and a broadcast is never rolled back.

## Modules

| Part | Modules |
| --- | --- |
| Colored fundings, sender | `sender_funding`, `sender_job`, `sender_recovery`, `funding_preparation`, `funding_handover`, `funding_events`, `open_failure` |
| Colored fundings, receiver | `receiver_funding`, `receiver_job` |
| Recovery | `recovery`, `reimport`, `rgb_import` |
| Virtual channels | `virtual_channels`, `virtual_funding` |
| Payments and swaps | `payments`, `payment_index`, `payment_events`, `rgb_payments`, `channel_events`, `async_order`, `swaps`, `rpc` |
| On-chain | `sweep`, `spending`, `cpfp`, `bump`, `psbt`, `wallet`, `signer`, `network`, `crypto` |
| Life cycle | `app_state`, `access`, `config`, `start`, `stages`, `startup`, `shutdown`, `upkeep`, `daemon`, `gossip`, `vss` |
| Storage and text | `kv_store`, `table`, `text`, `error` |

Functions marked `external_body` call other crates; their contracts are believed, and the comment above
each says what is claimed of which function.

## Tests and program

`tests/` runs the library with the real crates linked. `app/` holds the signer daemon's entry point, the
database behind the key-value store, the stored forms of the records, and the loops that drive the
state machines.
