# riot_wrappers

Verified building blocks of the Rust wrappers for RIOT-OS.

- `src/` is the library, written in Verus. Its functions are proved against their contracts,
  except five small functions marked `#[verifier::external_body]` that call `crc`, `hex` and
  `core::str::from_utf8` or write an error line to standard output; their contracts, stated
  from those crates' sources and std's documentation, are trusted. It holds what the wrappers
  compute between calls into RIOT's C API: error numbers and their conversion, XTimer tick arithmetic, C strings, CoAP block-wise responses and response
  building, CoRE link format output, BLE UUID parsing, IPv6 address and header handling,
  neighbor cache entries, typed message ports, I²C transaction planning, PWM duty bookkeeping,
  and the interpretation of the results that RIOT's functions return.
- `app/` is the thin layer that makes the calls into RIOT through `riot_sys` and implements the
  embedded-hal, switch-hal and rand_core traits; it hands plain values to the library.
- `tests/` exercises the library on concrete values.
