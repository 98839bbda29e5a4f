# gridpool

The rules of a GridPool mining pool, verified with Verus.

A GridPool pool mines for a local GridPool node. The node says which outputs every coinbase ends
with (the payout suffix); what the suffix leaves goes to slot zero, which belongs to the miner of the
channel or, for a slice of time, to the operator of the pool. The pool proves its best shares to the
node and gets its block templates from a Bitcoin node over JSON-RPC.

## Layout

- `src/` is the library. Every function in it is verified against the contract above its body.
  - `client`, `work`, `settings`, `telemetry`, `spool`, `address`: the adapter of the GridPool node.
    Who is paid for a channel, when the operator's fee slice is open, what the coinbase pays, which
    shares are proved, what is reported.
  - `template`, `provider`, `rpc`, `merkle`, `block`: templates made of `getblocktemplate`, which of
    them are kept and published when, and blocks made of solutions.
  - `manager`, `opening`, `evidence`, `identity`, `message`, `channel`: mining channels. How they are
    opened and closed, how shares are answered, and the proofs of shares.
  - `text`, `encoding`, `hashing`, `number`, `calendar`, `clock`: what the others build on.
- `tests/` runs the library with the crates it calls.
- `app/` is the pool around the library: HTTP, files, timers and the messages of the wire. It performs
  what the library decides and hands back what came of it. What takes floating-point numbers stands
  here too: making and updating channels, sums of difficulties, and rounding.

## What is trusted

Calls of other crates stand in small functions marked `external_body`. The comment above each says
what is claimed of the call. Where a result is named rather than described, the name stands for what
the crate computes from the arguments. Of the clock nothing is claimed but that a time is counted
from the Unix epoch to one of its readings.

Doubles are carried by their bit patterns (`number::Double`); sums of difficulties and the rounding
of the fee slice to whole seconds are left to `app/`.
