# lueur

A proxy that injects network faults (latency, jitter, packet loss,
bandwidth limits, DNS failures) into the traffic it carries, to test how
applications cope with a degraded network.

## Layout

- `src/` is the library, verified with Verus. It holds the decisions of the
  proxy, each with a contract:
  - `types`, `cli`, `config`: fault options, their names and parsing, the
    validation of command-line values, the settings built from commands and
    scenario files;
  - `proxy`: how a request's upstream is resolved and whether its host
    receives faults (`route_request`);
  - `bandwidth`, `delay`, `packet_loss`, `jitter`: the sizing of rate
    limiters and the poll-by-poll decisions of the throttled, delayed and
    lossy streams, and the random draws they make;
  - `display`, `termui`, `event`: the live task display as a state machine
    (`TaskBoard::step`) and what each line shows;
  - `reporting`, `scenario`, `plugin`, `errors`: report aggregation,
    scenario expectations, plugin hooks, and the status and message each
    error is answered with.
- `tests/` exercises the library on concrete values.
- `app/` is the program around it: the command line, the server, the
  stream wrappers, the terminal display, scenario execution and report
  files. Floating-point parameters (latency distributions, loss and jitter
  probabilities, SLO thresholds) live there.

Verify the library with Verus; build `app/` against it.
