# resp_args

How the values handed to a command are laid out as its arguments, verified
with Verus.

- `src/value.rs`: `ArgValue`, the serde data-model value the library hands a
  serializer, and its mathematical view `Value`.
- `src/serde_value.rs`: `SerdeValue`, the value serde's own `Serialize` impls
  give for the standard types the library builds on.
- `src/args.rs`: `Args` (how a value is written as command arguments: byte
  slices, arrays and vectors as one byte string, everything else as serde
  writes it, containers item by item), the marker `Arg`, and the `Serde`
  bridge.
- `src/fast.rs`: `FastSerialize`, serde's form with a fast path for byte
  strings, and the `WithFastSerialize` / `WithSerialize` wrappers.
- `src/arg_macro.rs`: the decisions of the `#[arg]` attribute on a model of
  the trait or impl block it stands on: which bound it replaces, which
  attribute it takes off, which parameters it rebinds, and when it refuses.
- `src/derive.rs`: the names the `Serialize` derive writes, and the
  attributes it keeps.

`app/` is the unverified shell: it drives serde serializers with the values
the library computes, and turns syn syntax trees into the library's models and
back for the two procedural macros.
