# token_reader

Reads ERC-20 tokens and Uniswap V2 pairs by executing read-only contract calls
in revm against a fork of the chain.

- `src/` is the verified library (Verus):
  - `uint` — 256-bit unsigned integers as four limbs, with `ruint` doing
    power, division, remainder and decimal rendering behind stated contracts;
  - `integer_decimal` — fixed-point amounts (`number / 10^decimals`), their
    whole and fractional parts and their text, with the laws that the parts
    recompose the number and that the text reads back;
  - `abi` — addresses, the ABI word layouts of the replies, and the
    `alloy_sol_types` encoder and decoders;
  - `call` — the contract functions and their selectors, call requests,
    execution outcomes, errors, and the generic reply readers;
  - `erc20_token`, `uniswap_v2_token_pool` — the calls each contract takes
    and what their replies mean.
- `app/` runs the requests in the EVM against the chain, and holds the
  floating-point division of two amounts. The network-backed database it
  uses (revm's `ethersdb` feature and the `ethers-providers` crate) is left
  out of `Cargo.toml` to keep the dependency tree small, so `app/` does not
  build as it stands.
- `tests/` runs the library on concrete values.
