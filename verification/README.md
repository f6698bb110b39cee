# cufile

Verified building blocks for NVIDIA cuFile (GPU Direct Storage).

- `src/` is the library, verified with Verus: the cuFile status codes
  (`status`), the error type and its correspondence with status codes
  (`error`), the text of errors and codes (`text`), the interpretation of the
  values that cuFile reads and writes return (`io`), registered buffers
  (`buffer`) and the driver's open/closed state (`driver`).
- `app/` is the thin unverified layer that owns the native resources (file
  handles, device pointers, the process-wide driver flag), makes the calls into
  the cuFile library through `cufile-sys`, and hands their results to the
  library.
- `tests/` exercises the library on concrete values.
