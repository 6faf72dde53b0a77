# wirm

An intermediate representation of WebAssembly components, with its
index-space bookkeeping proved correct by Verus.

- `src/parse.rs`: building a `Component` from a component binary (read by
  `wasmparser`), with the section list and the index spaces of every
  component in the tree.
- `src/resolve.rs`: resolving references to the items they name.
- `src/edit.rs`: adding items to a component; every added item takes the
  next index of its index space.
- `src/collect.rs`: planning the order in which the items of a component
  are encoded: every item after the items it refers to, in its own
  component or in an enclosing one.
- `src/assign.rs`: giving the planned items of every component the plan
  reaches their actual IDs, in plan order.
- `src/fix.rs`: rewriting the indices an item holds to those actual IDs.
- `src/encode.rs`: encoding a component back into a binary: the planned
  items, in plan order, each with its indices rewritten, nested components
  by their own plans; `src/plain.rs` says which items have a binary form,
  and `src/emit.rs` writes the sections with `wasm-encoder`.
- `src/concrete.rs`, `src/settle.rs`: describing the types of imports and
  exports without indices; an import or export whose walk needs more
  nested steps than a limit that grows with the component's size is
  described as `Unresolved`.
- `src/idx_spaces.rs`, `src/index_spaces.rs`, `src/scopes.rs`: index
  spaces and scope registries.
- `src/refs.rs`, `src/item_refs.rs`, `src/type_refs.rs`,
  `src/core_refs.rs`: the references each IR node makes.
- `src/wasm.rs`: the calls into `wasmparser`, with the contracts the rest
  of the library relies on.
- `app/`: reading components from files, printing them and writing them
  back to files.
