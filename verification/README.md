# langprint

Renders declarations — defines, constants, enums, structs and classes, functions, traits,
namespaces and modules — as source text for C++, C#, Rust, Python, JavaScript and Lua.

Every renderer is verified with Verus: its contract gives the exact text it appends, as a
spec function over the declaration, the options and the indentation level, and states that
the caller's indentation level is left as it was.

The declarations also convert to a neutral, language-agnostic IR. The IR is a lossy bridge:
each conversion returns the converted value with a log of every feature it could not carry
over, and the contracts state both the value and the exact list of warnings.

Layout of `src/`:

- `text.rs` — line endings, indentation, and the text primitives the renderers build on
  (appending, joining, wrapping lines, trimming, decimal spelling, padding).
- `literal.rs` — recognizing literals: trimming whitespace, integer literals as
  `from_str_radix` accepts them, floating-point literals as `f64::from_str` accepts them.
- `ir.rs` — the neutral declarations (structs, enums, functions, namespaces, ...) and the
  attribute annotations the backends map native attributes to.
- `conversion.rs` — conversion results and their logs of warnings, the conversion
  configuration and the user's conversion hooks.
- `type_map.rs` — the target languages, the primitive types and the map from a primitive
  type and a language to that language's spelling.
- `backends/` — one module per language, each with its declaration types and a backend
  whose `render_*_to` methods append to a `String` and whose `render_*` methods return one,
  and with the conversions of its declarations to and from the IR.
  Public proof functions next to the specs state the laws the renderers and conversions keep.

Every `to_ir` takes its conversion options; when they carry hooks, the user's
`after_to_ir_*` hook is applied to the result, and the contract gives the exact value when
they carry none. A `from_ir` that needs the configuration (renamed identifiers, mapped
types, attributes for annotations) takes what the configuration resolved as a `*Names`
argument, and its contract gives the exact value and warnings in terms of it; a
`before_from_ir_*` hook is applied by the caller to the input first. `LuaModule::to_ir`, which
renames the module's fields, likewise takes their IR names.
