# nft_marketplace

An NFT marketplace on Solana: a marketplace is initialized with a name and a
fee in basis points, sellers list core assets at a price, buyers either buy a
listing outright (paying lamports) or make an offer in an SPL token held in
escrow, which the seller can accept. Every sale pays the seller the price less
the marketplace fee, pays the fee to the treasury, hands the asset to the
buyer and mints the buyer reward tokens equal to the price.

Layout:

- `src/` — the verified library (Verus). It checks marketplace names, splits
  payments by the fee, keeps the marketplace, listing and offer records, and
  for each instruction computes the plan of transfers, mints, closes and
  asset moves (with the signer seeds of the program addresses) that the
  instruction performs. `src/laws.rs` states and proves properties that span
  instructions (a sale charges exactly the price; an offer's escrow is paid
  out in full; a listed asset is sold from the account that took custody).
- `app/` — the Anchor program: account validation and loading, conversion
  into the library's records, and execution of the planned calls through the
  system program, the token interface and MPL Core.
- `tests/` — tests of the library on concrete values.
