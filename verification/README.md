# lime_suite

A safe interface to the LimeSuite SDR library (`libLimeSuite`), with its
logic verified by Verus.

## Layout

- `src/` — the verified library (`lime_suite`):
  - `error.rs`: status codes of LimeSuite calls (`LmsRetVal`,
    `LmsRetValNonStandard`) and the crate's `Error`, with the `Result` each
    status code gives;
  - `text.rs`: decimal rendering, substring search, decoding of the
    fixed-size C strings LimeSuite fills in, and the checks on strings and
    names handed to LimeSuite;
  - `bindings.rs`: the plain C enumerations, structures and constants the
    logic reads;
  - `device.rs` and `device/`: the device connection and, per group of
    LimeSuite calls (`context`, `high_level`, `info`, `low_level`,
    `streaming`), what the library answers from each call's reply.
- `tests/` — tests of the library on concrete replies.
- `app/` — the unverified part: the C declarations of `libLimeSuite`, the
  ownership of device handles (closing them on drop), the calls themselves,
  and the functions whose values are floating-point numbers. Each call's
  reply is handed to the verified library.
