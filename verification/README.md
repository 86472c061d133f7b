# occt_codegen

A verified generator of the C++ facade of an OCCT kernel. From declarative
method descriptions (`MethodSpec`) it emits `kernel.cpp`, the method
implementations, and `bindings.cpp`, their Embind registrations, after
checking the descriptions for mistakes that would otherwise only surface
when the C++ is built.

Layout:

- `src/types.rs`: the description types (`MethodSpec`, `FacadeParam`,
  `MethodKind`, `ReturnType`).
- `src/config.rs`: the bundled description of every facade method, as a
  specification (`bundled_specs`) and as the list `target_methods` returns.
- `src/config_facts.rs`: the proof that the bundled list passes validation
  (names told apart by sorting them, each method checked on its own).
- `src/validation.rs`: `validate`, its exact specification, and the
  characterisation of the lists it accepts.
- `src/emitter.rs`: `emit_kernel` and `emit_bindings`, each specified by the
  exact text it produces.
- `src/text.rs`: text primitives with their models (character access,
  search, lexicographic order, sorted insertion, line splitting, trimming)
  and an append-only writer.
- `src/properties.rs`: properties of the generated files that hold for every
  list of methods: skipped methods add nothing to `bindings.cpp`, and nothing
  to `kernel.cpp` either unless one of them calls for a helper function (a
  skipped method returning evolution data, or naming `unwrapSingletonSolid`,
  still pulls that helper in); every method is implemented and registered;
  the preamble of `bindings.cpp` is the same for every list; closing an
  Embind chain twice is closing it once; the files end with one newline.
- `app/`: the `anyhow`-flavoured validation entry point.
- `tests/`: run-time tests of the library.
