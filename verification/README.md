# hw_sim

A simulator of a QKD hardware pair — Alice, the source, and Bob, the
detector — whose logic is verified with Verus.

The two simulators share a seed instead of a quantum channel: built alike,
they draw the same random stream and generate correlated batches of
settings and measurement results. A controller drives each simulator through
memory-mapped registers and FIFOs; a control socket accepts attack,
pause, synchronize and resume requests, and `hw_sim_control` recalibrates a
pair by pausing both, having the lagging one discard the batches it misses,
and resuming them.

## Layout

- `src/` — the verified library:
  - `simulation`, `builder`, `rng`, `overlap`, `bits`: the correlated batch
    generation over the seeded `Pcg64Mcg` stream.
  - `batch`, `gc`: the FIFO, GCR and GC record encodings.
  - `mmio`: the register constants and their edge detection.
  - `workflow`, `supervisor`: a hardware session and the sessions around
    it, as state machines.
  - `control`, `link`, `recalibration`, `actor`: the control protocol, the
    link to a pair (which records every exchange made through it), the pair
    recalibration and the simulator actor's requests.
  - `cli`: the command line of `hw_sim_control`.
  - `config`, `errors`, `text`.
- `tests/` — tests of the library.
- `app/` — the programs around it: the simulator (files, FIFOs, threads,
  sockets, logging, the floating-point QBER and pacing), `hw_sim_control`
  and `simu_controller`.

Each law of the library is a public proof function named `law_*` in the
module that it concerns.
