# loftr

Verified shape, index and configuration logic of LoFTR feature matching.

- `src/` is the Verus library. It holds the model configuration and its
  presets, every shape check made between the stages of the matcher
  (backbone, positional encoding, transformers, coarse matching, fine
  preprocessing, fine matching), the index arithmetic that selects windows,
  tokens and matches from flattened tensors, the border mask of the coarse
  grid, and the order of the attention updates. Each function states its
  result exactly in its `ensures`; the laws that relate functions are public
  proof functions next to them.
- `app/` runs the network with `tch`: tensors, floating-point arithmetic,
  weight loading. It hands tensor shapes and index vectors to the library and
  acts on the decisions it returns.
- `tests/` exercises the library on concrete values.

Real-valued configuration parameters (thresholds, temperatures) are held as
exact decimals (`Decimal`) in the library and converted to floating point in
`app/`.
