# openvino_genai

A binding to the OpenVINO GenAI runtime (plain LLM pipelines and draft-model
speculative decoding), split in two:

- `src/` — the verified library (Verus): native status codes to errors
  (`error`); which strings can go to the C interface and the flat key/value
  layout of properties (`properties`); the integer and flag generation
  parameters set on a native config (`config`); the pipeline builder, the
  precedence of a runtime-load failure and the native constructor arguments
  (`pipeline`); and the meaning of native outcomes such as null metrics
  handles (`results`). It holds no floats and makes no native calls.
- `app/` — ordinary Rust: the C interface, loading the runtime, the native
  calls, the owned native objects (freed on drop), the floating-point
  parameters and metrics, and the panic on a string holding a NUL character
  (the library's functions require that none does).
- `tests/` — tests of the verified library.

A native call is made in three steps: a function of the library lays out its
arguments, `app/` makes the call, and a function of the library turns the
returned status and out-values into the result.
