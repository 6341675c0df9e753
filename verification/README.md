# rv32im-decoder

A decoder for RV32IM instruction words (the RISC-V base integer set with the
multiply/divide extension), written in Verus. Every decoder states in its
contract exactly which instruction, or which error, it returns for each
32-bit word; the M-extension arithmetic states its result as the RISC-V
semantics over mathematical integers.

Layout of `src/`:

- `model` — the instruction fields and immediates as arithmetic on the word,
  truncating division, and the bit-level lemmas the code relies on.
- `decoder` — the main decoder (`decode`, `decode_bytes`), the base and
  M-extension decoders, typed-register decoders (`rv32i`, `rv32m`,
  `m_ext`) and the format-carrying decoder (`base_i`).
- `extensions`, `i_extension`, `isa` — decoders producing one flat variant
  per mnemonic, per-group decoders, and field-level decoders.
- `instruction`, `types`, `formatted`, `formats`, `fields`, `register`,
  `opcode`, `format`, `word`, `limb16` — the data types.
- `mul`, `m_extension`, `limbs` — multiplication through 16-bit limbs and
  division with the RISC-V conventions.
- `selectors`, `validate`, `invariants` — one-hot selectors of a decoded
  instruction, structural validation and self-checks.

`app/main.rs` is a small command-line program that decodes a word given in
hexadecimal.
