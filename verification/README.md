# actr_raw

Python bindings for the actor runtime, with their decision logic verified.

- `src/` is the verified library: the identity, destination and stream-chunk
  types that Python sees (`types`), the rendering of identities as text (`text`),
  the error model and its mapping to Python exceptions (`errors`), the names and
  failure messages of message conversions (`conversions`), the consume-once life
  cycle of the system, node and actor handles (`runtime`), the step functions of
  a Python workload's hooks and dispatch (`workload`), and the choice of
  observability settings (`observability`).
- `app/` is the Python extension module: the `#[pyclass]` copies of the library's
  types, the exceptions, and the asynchronous calls into the runtime and into
  Python, driven by the library's step functions.
- `tests/` runs the library on concrete values.
