# magna_middleware

Hardware-agnostic middleware for running ahead-of-time compiled inference
engines on edge accelerators (NVIDIA Orin/Thor, Qualcomm, TI TDA4, CPU),
written in Verus: every function of the library carries a contract that
Verus proves.

## Layout

- `src/` — the verified library.
  - `lifecycle/` — the lifecycle state machine and its transition laws.
  - `inference/` — tensors, the backend interface, buffer and engine
    managers, and the model optimizer (engine cache paths, converter
    command lines, optimization decisions).
  - `backends/` — the CPU, NVIDIA, Qualcomm and TI adapters (simulated
    runtimes).
  - `hardware/` — hardware profiles, CPU and library detection, dependency
    checks.
  - `api/` — the middleware facade and the inference-service helpers.
  - `metrics/`, `postprocess/`, `preprocess/`, `input/`, `evaluation.rs`,
    `aot.rs`, `utils/` — latency metrics, classification labels, image
    preprocessing arithmetic, frame sources, accuracy evaluation,
    deployment builds, text and path helpers.
- `tests/` — tests of the library.
- `app/` — the command-line program: file system, processes, logging,
  image decoding and the floating-point parts (pixel normalization,
  softmax, score ranking, timing statistics).
