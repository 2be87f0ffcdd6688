# relayrl_framework

The client side of a distributed reinforcement-learning runtime: actors that act in environments,
the coordinator that starts and stops them, and the ZeroMQ and NATS links over which they reach
inference and training servers.

- `src/` is the library. Every function in it is proved by Verus against its `requires` and
  `ensures`. What the library takes from other crates (`dashmap`, `bincode`, `serde_json`,
  `active-uuid-registry`) goes through small marked wrappers whose doc comments say what is believed
  of them.
- `app/` is the ordinary Rust around it: sockets, files, tasks, channels, clocks, random numbers and
  floating point.
- `tests/` runs the library on concrete values.

## Modules

| Modules | What they hold |
| --- | --- |
| `text`, `numbers`, `arguments`, `hyperparameters` | reading and writing settings as text |
| `configuration`, `transport_config`, `modes` | configurations, their defaults and builders |
| `ids`, `entries`, `registry`, `maps` | identifiers and the tables they are kept in |
| `paths` | paths of files, whatever the machine |
| `policies`, `zmq_policies`, `nats_policies` | retries, circuit breakers and backpressure |
| `zmq`, `nats`, `nats_payloads`, `listeners`, `interface` | requests to servers and their replies |
| `lifecycle`, `state`, `engine`, `actor`, `receiver`, `coordinator` | the running client |
| `messages`, `errors` | what travels between the parts |

Work that waits on the outside is written as a step function: it takes the state and what has just
happened, and says what is to be done next. Its contract fixes both. The loops in `app/` perform the
actions and hand the events back.

Models, sockets, channels and tasks are numbers in the library; `app/` keeps the values behind them.
Functions named `law_...` state what holds across several operations.
