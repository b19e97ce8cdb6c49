# xynok_type_eraser

Type-erased closures, `InlineFn` (called any number of times, `FnMut`) and
`InlineFnOnce` (called once, `FnOnce`), whose storage placement follows the
rules of an inline buffer of `S` bytes aligned to 16: a closure is placed inline
when both its size and its alignment fit, boxed otherwise, and refused when it
does not fit while boxing is switched off (`D == false`) or when the buffer is
empty.

The library under `src/` is written in Verus:

- `inline_fn/buffer.rs`: the storage rules (`fits`, `storage_decision`), the
  executable checks (`is_fit`, `check_buffer_size`, `check_boxing_allowed`,
  `choose_placement`) and the laws about them (a bigger buffer holds what a
  smaller one does; with boxing on nothing is refused; with boxing off nothing is
  boxed).
- `inline_fn/fn_mut.rs`, `inline_fn/fn_once.rs`: the two closure types. Their
  constructors are proved to place each closure as the rules say.
- `inline_fn/label.rs`: decimal rendering and the `Name<S> { .. }` text that
  describes a value; `StoreError::message` builds the refusal texts from it.

In the verified types the closure is held behind one owning pointer; the
placement is the verified classification, and a closure is called only under
its own precondition. `app/inline_storage.rs` holds containers that really write
small closures into a 16-aligned buffer of their own, taking the decision from
`choose_placement` and the panic text from `StoreError::message`. `app/lib.rs`
also adds the `erase_trait!` macro.
