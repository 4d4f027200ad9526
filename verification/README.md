# pinocchio_token_interface

Verified helpers for SPL Token and Token-2022 account data, written in Verus.

`src/` is the verified library:

- `extension` — the recognised Token-2022 extension types and the scanner
  over the TLV area of a mint or token account (`get_all_extensions`), with
  the law that scanning well-formed TLV entries yields exactly their types.
- `account` — `TokenAccount` and `Mint`, validated views over the data of an
  account (`AccountView`: owner and data) owned by SPL Token or Token-2022.
- `pack` — the packed layouts of token accounts and mints, written and read
  through the Token-2022 interface crate.
- `staging` — the data, lamports and balance changes used to seed token
  accounts and mints in a test validator.
- `extension_set`, `builder` — which extensions a new token account or mint
  carries (one value per type, the last one set winning), its data length and
  base data, and the inline metadata with its pointer to the mint.
- `extension_rules` — what Token-2022 says of a list of extension types: the
  mint extension combinations it refuses and the data length it computes.
- `kamino` — the arithmetic that seeds and ages a Kamino reserve's liquidity.
  The Kamino test helpers themselves (setting up the lending market, reserves,
  farms and obligations) are not part of this crate: they are built on the
  Kamino lending and farms account types, PDA derivations and instruction
  builders, which are not available here, so only their arithmetic is kept.
- `error`, `layout` — the runtime's program errors and the token programs'
  sizes and addresses.

`app/` holds the glue that needs a running LiteSVM validator: writing the
accounts into it and initializing extensions through the Token-2022
interface's generic state API.
