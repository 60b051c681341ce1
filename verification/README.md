# tach

Counter-based timekeeping: a replacement for a monotonic `Instant` that reads the
architectural counter (the x86 time-stamp counter, `CNTVCT_EL0` on aarch64, the time CSR on
riscv64 / loongarch64) and converts tick spans to durations with a Q32 fixed-point scale, plus
`Cycles`, a sibling that may select a faster cycle counter at run time.

## Layout

- `src/` — the verified library. Every function states its behaviour in `requires` / `ensures`
  and Verus proves it:
  - `ticks`, `cycle_ticks`, `cycles`, `instant`, `convert`, `text`: tick deltas, samples and
    instants, their arithmetic, and tick ↔ duration conversions (exact, rounded up, Q32);
  - `calibration`, `frequency`, `counter_eval`, `selection`, `selector`, `sources`, `bench`,
    `direct`, `target`, `indices`, `background`: where the frequency comes from, how a counter
    is validated, scored and selected, what a published selection index reads, and the
    recalibration schedule;
  - `stub`, `patch`, `x86_64_linux`, `aarch64_linux`: the machine-code bytes of patchable
    call sites and the rules for rewriting them;
  - `perf`: the perf-event metadata page logic (capability bits, sign extension, snapshot
    consistency, policy files);
  - `validation`, `runtime_api`, `resolution`, `textual`, `sorting`: the validation report,
    the function-runtime HTTP messages, the resolution summary, and the text and ordering
    helpers they use.
- `app/` — the unverified shell: counter reads (inline assembly, perf events), process-wide
  state, calibration spin loops, threads, the benchmark runner and its network loop. It hands
  plain values to the library and takes plain values back.
- `tests/` — tests of the library on concrete values.
