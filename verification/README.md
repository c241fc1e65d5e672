# cardyn

Verified core of a desktop system monitor.

- `src/metrics.rs`: the bounded live-history window (`RingBuffer`), one window
  per metric series (`Histories`), the `History` column snapshot and the
  `HistoryMetric` series names, with the laws of the window.
- `src/sampler.rs`: the sampler's decisions on OS readings: the reported CPU
  frequency and the epoch-millisecond timestamp.
- `src/gpu.rs`: the GPU reading model, the `GpuProvider` trait, the `NoGpu`
  fallback and the sample built from an accelerator's counters.
- `app/`: the Tauri shell, the sysinfo-backed sampler thread, the tray, the
  macOS IOKit reader and the serde copies of the library's types.

Readings are floating point in the application; the library's containers take
the value type as a parameter.
