# volatile_table

Typed volatile pointers for memory-mapped registers, with the access rights
(read-only, read-write, write-only) fixed in the type, and a small DSL for
register tables laid out at byte offsets from a base address.

- `src/` is the verified library (Verus): the pointer model (a pointer is the
  address it holds), its constructors and getters, typed and byte offsets
  (checked and wrapping), the layout of a register map, the values that
  setting and clearing bits store, and the stopping decision of a spin-wait.
  `src/laws.rs` proves how these operations relate.
- `app/` is ordinary Rust around it: the volatile loads and stores, the
  read-modify-write and spin loops that use the library's decisions, the
  `volatile_type!`, `volatile!` and `volatile_table!` macros, and an example
  UART driver.
- `tests/` exercises the library on concrete values.
