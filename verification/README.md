# benchbot

A throughput benchmark client for a transaction network. The library (`src/`)
holds the benchmark's decisions, each with a contract proved by Verus:

- `sampler` and `rate`: per-node throughput sampling with an exact rate type,
  the peak kept over rounds, and the running total;
- `report`: the final figures over all nodes (peak, largest count, idle nodes);
- `location`: where a node stands, from the fields of its address;
- `batches`: splitting a round's transactions into one batch per sender, and
  queueing them in order;
- `rounds`: when the transfers switch direction;
- `barrier`, `airdrop`, `network`, `config`: the waits, checks and settings of a run;
- `metrics` and `influx`: the points reported to the metrics store.

`app/main.rs` is the program around it: arguments, network clients, threads,
clock, printing.
