# sol_trade_sdk

Verified assembly of pump.fun bonding-curve instructions.

- `src/pumpfun_ix_data.rs`: the byte layout of `buy`, `buy_exact_sol_in` and `sell` data, with
  proofs that each encoding reads back as its arguments and only under its own discriminator.
- `src/pumpfun.rs`: the buy, sell and cashback-claim instructions, built from swap parameters,
  the program's fixed accounts and the addresses and prices derived for the trade.
- `src/pumpfun_params.rs`, `src/meteora_damm_v2_params.rs`: protocol parameters.
- `src/address.rs`, `src/instruction.rs`: addresses, account metas and instructions as plain values.
- `app/`: conversion to and from the Solana SDK's types, and error messages.
