# rhdl

A verified core of an HDL toolkit written as Rust kernels.

`src/` is checked by Verus:

- `rhif`, `rtl` — the intermediate forms: operands, opcodes, and the text
  each opcode prints as.
- `syntax`, `builder`, `kernel`, `support` — the translation of a kernel
  function's syntax tree into calls of the AST builder; `support` states on
  its own which syntax kernels may use and proves that the translation
  succeeds on exactly that syntax.
- `ast`, `unify`, `check_inference` — the check that type inference bound
  every node of a kernel.
- `synchronous` — the text of a derived `Synchronous` implementation.
- `bits`, `timed`, `strobe` — bit vectors, signals in clock domains, and a
  strobe circuit's kernels.

`app/` holds the procedural-macro front ends: they read Rust source with
`syn`, hand the library plain values, and turn its answers into tokens.
